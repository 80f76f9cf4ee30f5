use std::task::Poll;
use std::time::{Duration, Instant};
use tokio_quicker::backend::client::{client_id, fatal_error};
use tokio_quicker::backend::handshake::{
    after_recv, handshake_start, handshake_step, io_complete, HandshakeStep,
};
use tokio_quicker::backend::send::{Produced, SendBuffer, SendEvent, SendStep};
use tokio_quicker::backend::timer::Timer;
use tokio_quicker::config::{
    local_certificate_profile, MAX_DATAGRAM_SIZE, STREAM_BUFFER_SIZE,
};
use tokio_quicker::error::Error;

#[test]
fn timer_runs_down() {
    assert!(!Timer::Unset.ready());
    assert!(Timer::SetTo(Instant::now()).ready());
    assert!(!Timer::SetTo(Instant::now() + Duration::from_secs(3600)).ready());
}

#[test]
fn timer_is_ready_from_its_moment_on() {
    let now = Instant::now();
    let later = now + Duration::from_nanos(1);
    assert!(Timer::SetTo(now).ready_at(&now));
    // Once it has run down, it has run down at every later moment.
    assert!(Timer::SetTo(now).ready_at(&later));
    assert!(Timer::SetTo(now).ready_at(&(later + Duration::from_secs(9))));
    assert!(!Timer::SetTo(later).ready_at(&now));
    assert!(!Timer::Unset.ready_at(&later));
}

#[test]
fn timer_is_armed_with_a_timeout() {
    let now = Instant::now();
    let mut timer = Timer::Unset;
    assert!(timer.arm_at(&now, Some(Duration::from_secs(5))));
    assert!(!timer.ready_at(&(now + Duration::from_millis(4999))));
    assert!(timer.ready_at(&(now + Duration::from_secs(5))));
    // There is no such moment.
    assert!(!timer.arm_at(&now, Some(Duration::MAX)));
    assert!(matches!(timer, Timer::SetTo(time) if time == now + Duration::from_secs(5)));
    assert!(timer.arm_at(&now, None));
    assert!(matches!(timer, Timer::Unset));
}

#[test]
fn a_packet_is_transmitted_from_the_position_on() {
    let mut buffer = SendBuffer::new(100);
    assert_eq!(buffer.len(), 100);
    assert_eq!(buffer.step(SendEvent::Polled), SendStep::Produce { at: 0 });
    assert!(matches!(buffer.on_produced(Ok(40)), Produced::Transmit { from: 0, to: 40 }));
    assert_eq!(buffer.step(SendEvent::Transmitted(25)), SendStep::Ready);
    assert_eq!(buffer.position(), 25);
    assert_eq!(buffer.step(SendEvent::Polled), SendStep::Produce { at: 40 });
    assert!(matches!(buffer.on_produced(Ok(10)), Produced::Transmit { from: 25, to: 50 }));
    assert_eq!(buffer.part(25, 50).len(), 25);
}

#[test]
fn without_a_packet_the_rest_is_transmitted() {
    let mut buffer = SendBuffer::new(100);
    buffer.step(SendEvent::Polled);
    assert!(matches!(buffer.on_produced(Err(quiche::Error::Done)), Produced::Pending));
    buffer.step(SendEvent::Polled);
    buffer.on_produced(Ok(8));
    buffer.step(SendEvent::Transmitted(3));
    buffer.step(SendEvent::Polled);
    assert!(matches!(
        buffer.on_produced(Err(quiche::Error::Done)),
        Produced::Transmit { from: 3, to: 8 }
    ));
}

#[test]
fn a_full_buffer_is_flushed_and_starts_over() {
    let mut buffer = SendBuffer::new(10);
    buffer.step(SendEvent::Polled);
    assert!(matches!(buffer.on_produced(Ok(10)), Produced::Transmit { from: 0, to: 10 }));
    assert_eq!(buffer.step(SendEvent::Transmitted(4)), SendStep::Ready);
    assert_eq!(buffer.step(SendEvent::Polled), SendStep::Flush { from: 4 });
    assert_eq!(buffer.step(SendEvent::Flushed(5)), SendStep::Flush { from: 9 });
    assert_eq!(buffer.step(SendEvent::Polled), SendStep::Flush { from: 9 });
    assert_eq!(buffer.step(SendEvent::Flushed(1)), SendStep::Produce { at: 0 });
    assert_eq!(buffer.position(), 0);
}

#[test]
fn a_packet_that_does_not_fit_starts_a_flush() {
    let mut buffer = SendBuffer::new(10);
    buffer.step(SendEvent::Polled);
    buffer.on_produced(Ok(6));
    buffer.step(SendEvent::Transmitted(2));
    buffer.step(SendEvent::Polled);
    assert!(matches!(
        buffer.on_produced(Err(quiche::Error::BufferTooShort)),
        Produced::Ready
    ));
    assert_eq!(buffer.step(SendEvent::Polled), SendStep::Flush { from: 2 });
    // The socket was handed the whole rest of the buffer, and may take more than was produced.
    assert_eq!(buffer.step(SendEvent::Flushed(8)), SendStep::Flush { from: 10 });
}

#[test]
fn an_error_closes_the_connection() {
    let mut buffer = SendBuffer::new(10);
    buffer.step(SendEvent::Polled);
    assert!(matches!(
        buffer.on_produced(Err(quiche::Error::CryptoFail)),
        Produced::Close(quiche::Error::CryptoFail)
    ));
    assert_eq!(fatal_error(Ok(3)), None);
    assert_eq!(fatal_error(Err(quiche::Error::Done)), None);
    assert_eq!(
        fatal_error(Err(quiche::Error::BufferTooShort)),
        Some(quiche::Error::BufferTooShort)
    );
}

fn broken() -> Poll<Result<(), Error>> {
    Poll::Ready(Err(Error::from(std::io::ErrorKind::BrokenPipe)))
}

#[test]
fn a_poll_goes_on_to_sending_unless_receiving_failed() {
    assert!(matches!(after_recv(Poll::Pending), Ok(Poll::Pending)));
    assert!(matches!(after_recv(Poll::Ready(Ok(()))), Ok(Poll::Ready(()))));
    assert!(matches!(after_recv(broken()), Err(Error::IoError(_))));
}

#[test]
fn a_poll_comes_to_what_socket_and_connection_did() {
    let sent = || Poll::Ready(Ok(()));
    let received = Poll::Ready(());
    let none = Poll::Ready(Ok(None));
    let some = Poll::Ready(Ok(Some(())));
    let same = |r: Poll<Result<Option<()>, Error>>, expected: &Poll<Result<Option<()>, Error>>| {
        format!("{:?}", r) == format!("{:?}", expected)
    };
    assert!(same(io_complete(true, Poll::Pending, sent()), &none));
    assert!(same(io_complete(true, Poll::Pending, Poll::Pending), &none));
    assert!(same(io_complete(false, Poll::Pending, Poll::Pending), &Poll::Pending));
    assert!(same(io_complete(false, received, Poll::Pending), &some));
    assert!(same(io_complete(false, Poll::Pending, sent()), &some));
    assert!(same(io_complete(false, received, sent()), &some));
    for closed in [false, true] {
        assert!(matches!(
            io_complete(closed, received, broken()),
            Poll::Ready(Err(Error::IoError(_)))
        ));
    }
}

#[test]
fn a_handshake_ends_when_established_or_closed() {
    assert_eq!(handshake_start(true), HandshakeStep::Done);
    assert_eq!(handshake_start(false), HandshakeStep::Continue);
    assert_eq!(handshake_step(&Poll::Pending, true), HandshakeStep::Wait);
    assert_eq!(handshake_step(&Poll::Ready(Ok(None)), false), HandshakeStep::UnexpectedEof);
    assert_eq!(handshake_step(&Poll::Ready(Ok(None)), true), HandshakeStep::Done);
    assert_eq!(handshake_step(&Poll::Ready(Ok(Some(()))), false), HandshakeStep::Continue);
    let failed = Poll::Ready(Err(Error::BackendError(quiche::Error::TlsFail)));
    assert_eq!(handshake_step(&failed, false), HandshakeStep::Continue);
    assert_eq!(handshake_step(&failed, true), HandshakeStep::Done);
}

#[test]
fn clients_choose_random_ids() {
    let a = client_id();
    let b = client_id();
    assert_eq!(a.len(), 16);
    assert_ne!(a, b);
}

#[test]
fn sizes_and_the_local_certificate() {
    assert_eq!(MAX_DATAGRAM_SIZE, 1350);
    assert_eq!(STREAM_BUFFER_SIZE, 65536);
    let profile = local_certificate_profile();
    assert_eq!((profile.key_bits, profile.version, profile.serial_bits), (2048, 2, 159));
    assert_eq!((profile.common_name, profile.valid_days), ("localhost", 365));
}

use std::task::Poll;
use tokio::io::ReadBuf;
use tokio_quicker::connection::{QuicConnection, ToClient, ToServer};
use tokio_quicker::error::{to_wire, Error};
use tokio_quicker::stream::{deliver, QuicStream, ReadOutcome};
use tokio_quicker::Message;

fn client() -> QuicConnection<ToServer, char> {
    QuicConnection::<ToServer, char>::new()
}

fn server() -> QuicConnection<ToClient, char> {
    QuicConnection::<ToClient, char>::new()
}

#[test]
fn low_bits_say_what_a_stream_is() {
    let mut c = client();
    let mut s = server();
    assert_eq!(c.bidi(1, 'a').unwrap().id(), 4);
    assert_eq!(s.bidi(1, 'a').unwrap().id(), 5);
    assert_eq!(c.uni(1, 'a').unwrap().id(), 6);
    assert_eq!(s.uni(1, 'a').unwrap().id(), 7);
    assert_eq!(c.bidi(0, 'a').unwrap().id(), 0);
    assert_eq!(s.uni((1 << 62) - 1, 'a').unwrap().id(), u64::MAX);
}

#[test]
fn a_number_keeps_62_bits() {
    let mut c = client();
    assert_eq!(c.bidi((1 << 62) + 3, 'a').unwrap().id(), 12);
    assert!(matches!(c.bidi(3, 'b'), Err(Error::IdAlreadyTaken(12))));
}

#[test]
fn an_id_is_opened_once() {
    let mut c = client();
    c.bidi(9, 'x').unwrap();
    assert!(matches!(c.bidi(9, 'y'), Err(Error::IdAlreadyTaken(36))));
    assert_eq!(c.sender(36), Some(&'x'));
    assert_eq!(c.sender(38), None);
    c.uni(9, 'z').unwrap();
    assert_eq!(c.sender(38), Some(&'z'));
}

#[test]
fn streams_of_the_other_end_are_adopted() {
    let mut s = server();
    assert_eq!(s.adopt(4, 'q').id(), 4);
    assert_eq!(s.sender(4), Some(&'q'));
    assert_eq!(s.bidi(1, 'r').unwrap().id(), 5);
}

fn data(bytes: &[u8]) -> Poll<Option<Result<Message, Error>>> {
    Poll::Ready(Some(Ok(Message::Data { stream_id: 4, bytes: bytes.to_vec(), fin: false })))
}

#[test]
fn data_fills_the_buffer() {
    let mut storage = [0u8; 8];
    let mut buf = ReadBuf::new(&mut storage);
    let mut stream = QuicStream::new(4);
    assert!(matches!(
        stream.poll_read(data(&[1, 2, 3]), &mut buf),
        Poll::Ready(ReadOutcome::Delivered)
    ));
    assert_eq!(buf.filled(), &[1, 2, 3]);
    assert_eq!(stream.id(), 4);
}

#[test]
fn data_goes_behind_what_is_filled() {
    let mut storage = [0u8; 8];
    let mut buf = ReadBuf::new(&mut storage);
    buf.put_slice(b"xy");
    let mut stream = QuicStream::new(4);
    assert!(matches!(
        stream.poll_read(data(b"abc"), &mut buf),
        Poll::Ready(ReadOutcome::Delivered)
    ));
    assert_eq!(buf.filled(), b"xyabc");
    deliver(&mut buf, b"def");
    assert_eq!(buf.filled(), b"xyabcdef");
    assert!(matches!(
        stream.poll_read(data(b"g"), &mut buf),
        Poll::Ready(ReadOutcome::Oversized)
    ));
    assert_eq!(buf.filled(), b"xyabcdef");
}

#[test]
fn too_much_data_is_told() {
    let mut storage = [0u8; 2];
    let mut buf = ReadBuf::new(&mut storage);
    let mut stream = QuicStream::new(4);
    assert!(matches!(
        stream.poll_read(data(&[1, 2, 3]), &mut buf),
        Poll::Ready(ReadOutcome::Oversized)
    ));
    assert!(buf.filled().is_empty());
    assert!(matches!(
        stream.poll_read(data(&[1, 2]), &mut buf),
        Poll::Ready(ReadOutcome::Delivered)
    ));
    assert_eq!(buf.filled(), &[1, 2]);
}

#[test]
fn other_messages_leave_the_buffer_alone() {
    let mut storage = [0u8; 2];
    let mut buf = ReadBuf::new(&mut storage);
    let mut stream = QuicStream::new(4);
    assert!(matches!(stream.poll_read(Poll::Pending, &mut buf), Poll::Pending));
    assert!(matches!(
        stream.poll_read(Poll::Ready(None), &mut buf),
        Poll::Ready(ReadOutcome::BrokenPipe)
    ));
    assert!(matches!(
        stream.poll_read(Poll::Ready(Some(Ok(Message::Close(4)))), &mut buf),
        Poll::Ready(ReadOutcome::Closed)
    ));
    assert!(matches!(
        stream.poll_read(Poll::Ready(Some(Err(Error::IdAlreadyTaken(4)))), &mut buf),
        Poll::Ready(ReadOutcome::Reported(Error::IdAlreadyTaken(4)))
    ));
    assert!(buf.filled().is_empty());
}

#[test]
fn messages_of_a_stream() {
    let stream = QuicStream::new(11);
    match stream.write_message(&[5, 6]) {
        Message::Data { stream_id, bytes, fin } => {
            assert_eq!((stream_id, fin), (11, false));
            assert_eq!(bytes, vec![5, 6]);
        }
        other => panic!("{:?}", other),
    }
    assert!(matches!(stream.shutdown_message(), Message::Close(11)));
}

#[test]
fn texts_of_errors() {
    assert_eq!(
        Error::IdAlreadyTaken(0).to_string(),
        "Id: 0 is already taken by another open stream."
    );
    assert_eq!(
        Error::IdAlreadyTaken(u64::MAX).to_string(),
        "Id: 18446744073709551615 is already taken by another open stream."
    );
    assert_eq!(Error::from(quiche::Error::FlowControl).to_string(), "FlowControl");
    assert_eq!(
        Error::from(quiche::Error::InvalidStreamState(3)).to_string(),
        "InvalidStreamState(3)"
    );
    let eof = Error::from(std::io::ErrorKind::UnexpectedEof);
    assert_eq!(eof.to_string(), format!("{}", std::io::ErrorKind::UnexpectedEof));
}

#[test]
fn errors_convert() {
    assert!(matches!(
        Error::from(quiche::Error::Done),
        Error::BackendError(quiche::Error::Done)
    ));
    match Error::from(std::io::ErrorKind::BrokenPipe) {
        Error::IoError(err) => assert_eq!(err.kind(), std::io::ErrorKind::BrokenPipe),
        other => panic!("{:?}", other),
    }
    let io = std::io::Error::new(std::io::ErrorKind::TimedOut, "late");
    match Error::from(io) {
        Error::IoError(err) => assert_eq!(err.kind(), std::io::ErrorKind::TimedOut),
        other => panic!("{:?}", other),
    }
}

#[test]
fn codes_on_the_wire() {
    assert_eq!(to_wire(quiche::Error::Done), 0x0);
    assert_eq!(to_wire(quiche::Error::FlowControl), 0x3);
    assert_eq!(to_wire(quiche::Error::StreamLimit), 0x4);
    assert_eq!(to_wire(quiche::Error::InvalidStreamState(8)), 0x5);
    assert_eq!(to_wire(quiche::Error::FinalSize), 0x6);
    assert_eq!(to_wire(quiche::Error::InvalidFrame), 0x7);
    assert_eq!(to_wire(quiche::Error::InvalidTransportParam), 0x8);
    assert_eq!(to_wire(quiche::Error::IdLimit), 0x9);
    assert_eq!(to_wire(quiche::Error::CryptoBufferExceeded), 0xd);
    assert_eq!(to_wire(quiche::Error::KeyUpdate), 0xe);
    assert_eq!(to_wire(quiche::Error::TlsFail), 0xa);
    assert_eq!(to_wire(quiche::Error::StreamReset(1)), 0xa);
}

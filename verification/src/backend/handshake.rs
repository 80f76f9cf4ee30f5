//! How the polls of a connection fit together.
use crate::error::Error;
use std::task::Poll;
use vstd::prelude::*;

verus! {

/// `std::task::Poll`, with its variants.
#[verifier::external_type_specification]
#[verifier::reject_recursive_types(T)]
pub struct ExPoll<T>(Poll<T>);

/// How a poll of a connection goes on after its socket was asked for what there is to receive.
pub open spec fn goes_on(recv: Poll<Result<(), Error>>, r: Result<Poll<()>, Error>) -> bool {
    match recv {
        Poll::Pending => r matches Ok(received) && received is Pending,
        Poll::Ready(Ok(_)) => r matches Ok(received) && received is Ready,
        Poll::Ready(Err(err)) => r == Err::<Poll<()>, Error>(err),
    }
}

/// How a poll of a connection goes on after its socket was asked for what there is to receive: to
/// sending, with whether there was anything, unless receiving failed. Then the poll fails so.
pub fn after_recv(recv: Poll<Result<(), Error>>) -> (r: Result<Poll<()>, Error>)
    ensures
        goes_on(recv, r),
        match recv {
            Poll::Pending => r matches Ok(received) && received is Pending,
            Poll::Ready(Ok(_)) => r matches Ok(received) && received is Ready,
            Poll::Ready(Err(err)) => r == Err::<Poll<()>, Error>(err),
        },
{
    match recv {
        Poll::Pending => Ok(Poll::Pending),
        Poll::Ready(Ok(())) => Ok(Poll::Ready(())),
        Poll::Ready(Err(err)) => Err(err),
    }
}

/// What a poll of a connection comes to.
pub open spec fn comes_to(
    closed: bool,
    recv: Poll<()>,
    send: Poll<Result<(), Error>>,
    r: Poll<Result<Option<()>, Error>>,
) -> bool {
    match send {
        Poll::Ready(Err(err)) => r == Poll::Ready(Err::<Option<()>, Error>(err)),
        _ => {
            &&& closed ==> r == Poll::Ready(Ok::<Option<()>, Error>(None))
            &&& !closed && recv is Pending && send is Pending ==> r is Pending
            &&& !closed && (recv is Ready || send is Ready) ==> (r matches Poll::Ready(Ok(Some(_))))
        },
    }
}

/// What a poll of a connection comes to, from what its socket had to receive and to send: the error
/// if sending failed, `None` if the connection is closed, else whether there was anything to do.
pub fn io_complete(closed: bool, recv: Poll<()>, send: Poll<Result<(), Error>>) -> (r: Poll<
    Result<Option<()>, Error>,
>)
    ensures
        comes_to(closed, recv, send, r),
        match send {
            Poll::Ready(Err(err)) => r == Poll::Ready(Err::<Option<()>, Error>(err)),
            _ => {
                &&& closed ==> r == Poll::Ready(Ok::<Option<()>, Error>(None))
                &&& !closed && recv is Pending && send is Pending ==> r is Pending
                &&& !closed && (recv is Ready || send is Ready) ==> (r matches Poll::Ready(
                    Ok(Some(_)),
                ))
            },
        },
{
    let send: Poll<()> = match send {
        Poll::Ready(Err(err)) => {
            return Poll::Ready(Err(err));
        },
        Poll::Ready(Ok(())) => Poll::Ready(()),
        Poll::Pending => Poll::Pending,
    };
    match (closed, recv, send) {
        (true, _, _) => Poll::Ready(Ok(None)),
        (false, Poll::Pending, Poll::Pending) => Poll::Pending,
        _ => Poll::Ready(Ok(Some(()))),
    }
}

/// What a handshake does next.
#[derive(Clone, Copy, Debug, PartialEq, Eq, Structural)]
pub enum HandshakeStep {
    /// Nothing: it is complete.
    Done,
    /// Poll the connection.
    Continue,
    /// Wait.
    Wait,
    /// Fail: the connection was closed before it was established.
    UnexpectedEof,
}

/// How a handshake goes on from a poll of the connection.
pub open spec fn handshake_step_of(io: Poll<Result<Option<()>, Error>>, established: bool) -> HandshakeStep {
    match io {
        Poll::Pending => HandshakeStep::Wait,
        Poll::Ready(result) => if established {
            HandshakeStep::Done
        } else if result matches Ok(None) {
            HandshakeStep::UnexpectedEof
        } else {
            HandshakeStep::Continue
        },
    }
}

/// How a handshake begins.
pub fn handshake_start(established: bool) -> (step: HandshakeStep)
    ensures
        step == if established {
            HandshakeStep::Done
        } else {
            HandshakeStep::Continue
        },
{
    if established {
        HandshakeStep::Done
    } else {
        HandshakeStep::Continue
    }
}

/// How a handshake goes on from a poll of the connection. An error of the poll is no reason to
/// stop.
pub fn handshake_step(io: &Poll<Result<Option<()>, Error>>, established: bool) -> (step: HandshakeStep)
    ensures
        step == handshake_step_of(*io, established),
        *io is Pending <==> step is Wait,
        *io is Ready && established ==> step is Done,
{
    match io {
        Poll::Pending => HandshakeStep::Wait,
        Poll::Ready(result) => {
            if established {
                HandshakeStep::Done
            } else {
                match result {
                    Ok(None) => HandshakeStep::UnexpectedEof,
                    _ => HandshakeStep::Continue,
                }
            }
        },
    }
}

/// A handshake is done only if the connection is established, and fails only if it is not and was
/// closed.
pub proof fn lemma_handshake_outcome(io: Poll<Result<Option<()>, Error>>, established: bool)
    ensures
        handshake_step_of(io, established) is Done ==> established,
        handshake_step_of(io, established) is UnexpectedEof ==> !established && io == Poll::Ready(
            Ok::<Option<()>, Error>(None),
        ),
{
}

/// A handshake waits exactly while a poll has nothing to do. As soon as a poll did something on an
/// established connection it is done, whatever the poll came to. On one that is not established, it
/// fails if the connection was closed, and goes on in every other case, an error of the poll too.
pub proof fn lemma_handshake_progress(io: Poll<Result<Option<()>, Error>>, established: bool)
    ensures
        io is Pending <==> handshake_step_of(io, established) is Wait,
        io is Ready && established ==> handshake_step_of(io, established) is Done,
        !established && io == Poll::Ready(Ok::<Option<()>, Error>(None)) ==> handshake_step_of(
            io,
            established,
        ) is UnexpectedEof,
        !established && (io matches Poll::Ready(Ok(Some(_)))) ==> handshake_step_of(
            io,
            established,
        ) is Continue,
        !established && (io matches Poll::Ready(Err(_))) ==> handshake_step_of(
            io,
            established,
        ) is Continue,
{
}

/// Receiving stops a poll if and only if it failed, and then with its own error. Otherwise sending
/// learns whether there was anything to receive.
pub proof fn lemma_receiving_goes_on(recv: Poll<Result<(), Error>>, r: Result<Poll<()>, Error>)
    requires
        goes_on(recv, r),
    ensures
        r is Err <==> (recv matches Poll::Ready(Err(_))),
        recv matches Poll::Ready(Err(err)) ==> r == Err::<Poll<()>, Error>(err),
        r matches Ok(received) ==> (received is Ready <==> recv is Ready),
{
}

/// A poll fails if and only if sending failed, with its error. Otherwise it is over with nothing if
/// and only if the connection is closed, and it waits if and only if the connection is open and
/// there was nothing to receive or to send.
pub proof fn lemma_poll_comes_to(
    closed: bool,
    recv: Poll<()>,
    send: Poll<Result<(), Error>>,
    r: Poll<Result<Option<()>, Error>>,
)
    requires
        comes_to(closed, recv, send, r),
    ensures
        (r matches Poll::Ready(Err(_))) <==> (send matches Poll::Ready(Err(_))),
        send matches Poll::Ready(Err(err)) ==> r == Poll::Ready(Err::<Option<()>, Error>(err)),
        !(send matches Poll::Ready(Err(_))) ==> ((r matches Poll::Ready(Ok(None))) <==> closed),
        r is Pending <==> !closed && recv is Pending && send is Pending,
{
}

/// An established connection that did anything ends its handshake, and one that was closed before
/// it was established fails it: what a poll comes to decides, and neither case waits.
pub proof fn lemma_handshake_ends(
    closed: bool,
    established: bool,
    recv: Poll<()>,
    send: Poll<Result<(), Error>>,
    io: Poll<Result<Option<()>, Error>>,
)
    requires
        comes_to(closed, recv, send, io),
        !(send matches Poll::Ready(Err(_))),
    ensures
        established && (closed || recv is Ready || send is Ready) ==> handshake_step_of(
            io,
            established,
        ) is Done,
        !established && closed ==> handshake_step_of(io, established) is UnexpectedEof,
        !established && !closed && (recv is Ready || send is Ready) ==> handshake_step_of(
            io,
            established,
        ) is Continue,
{
}

} // verus!

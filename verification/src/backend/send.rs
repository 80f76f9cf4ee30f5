//! The buffer between a connection and its socket.
//!
//! Packets are produced behind one another into the buffer, and what has been produced is handed to
//! the socket. When the buffer is full, or a packet did not fit, it is flushed: it is handed to the
//! socket until the position reaches the end, and then starts over.
use quiche::Error as TransportError;
use vstd::prelude::*;
use vstd::slice::slice_subrange;

verus! {

/// A [`SendBuffer`] as a mathematical value.
pub struct SendState {
    /// Whether the buffer is being flushed.
    pub flush: bool,
    /// How much has been handed to the socket.
    pub pos: int,
    /// How much has been produced.
    pub end: int,
    /// The contents.
    pub bytes: Seq<u8>,
}

impl SendState {
    /// What has been produced and handed over lies in the buffer, and outside a flush no more has
    /// been handed over than was produced.
    pub open spec fn wf(self) -> bool {
        &&& 0 <= self.pos <= self.bytes.len()
        &&& 0 <= self.end <= self.bytes.len()
        &&& !self.flush ==> self.pos <= self.end
    }

    /// The state after `n` bytes were handed to the socket.
    pub open spec fn handed_over(self, n: int) -> SendState {
        SendState { pos: self.pos + n, ..self }
    }

    /// The state after the buffer was flushed.
    pub open spec fn restarted(self) -> SendState {
        SendState { flush: false, pos: 0, end: 0, ..self }
    }
}

/// What happened since the buffer last said what to do.
#[derive(Clone, Copy, Debug)]
pub enum SendEvent {
    /// The connection is polled.
    Polled,
    /// The socket took this many bytes of a [`SendStep::Flush`].
    Flushed(usize),
    /// The socket took this many bytes of a [`Produced::Transmit`].
    Transmitted(usize),
}

/// What to do next.
#[derive(Clone, Copy, Debug, PartialEq, Eq, Structural)]
pub enum SendStep {
    /// Hand the buffer from this position on to the socket.
    Flush { from: usize },
    /// Let the connection produce a packet at this position.
    Produce { at: usize },
    /// Nothing: the poll is over.
    Ready,
}

/// What to do after the connection was asked for a packet.
#[derive(Debug)]
pub enum Produced {
    /// Hand this part of the buffer to the socket.
    Transmit { from: usize, to: usize },
    /// Wait: there is nothing to send.
    Pending,
    /// Nothing: the poll is over.
    Ready,
    /// Close the connection on account of this error.
    Close(TransportError),
}

/// Whether the event can happen in a state: the socket takes no more than it was handed.
pub open spec fn possible(state: SendState, event: SendEvent) -> bool {
    match event {
        SendEvent::Polled => true,
        SendEvent::Flushed(n) => state.flush && state.pos + n <= state.bytes.len(),
        SendEvent::Transmitted(n) => state.pos + n <= state.end,
    }
}

/// The state after an event, before the next step is taken.
pub open spec fn after_event(state: SendState, event: SendEvent) -> SendState {
    match event {
        SendEvent::Polled => state,
        SendEvent::Flushed(n) => state.handed_over(n as int),
        SendEvent::Transmitted(n) => state.handed_over(n as int),
    }
}

/// The state when the next step is taken: a flush is over when the position has reached the end.
pub open spec fn settled(state: SendState) -> SendState {
    if state.flush && state.pos == state.end {
        state.restarted()
    } else {
        state
    }
}

/// The state after an event and the step it leads to.
pub open spec fn step_of(state: SendState, event: SendEvent) -> (SendState, SendStep) {
    let reached = after_event(state, event);
    if event is Transmitted {
        (reached, SendStep::Ready)
    } else if settled(reached).flush {
        (reached, SendStep::Flush { from: reached.pos as usize })
    } else {
        (settled(reached), SendStep::Produce { at: settled(reached).end as usize })
    }
}

/// The state after the connection was asked for a packet, and what it leads to.
pub open spec fn produced_of(state: SendState, result: Result<usize, TransportError>) -> (
    SendState,
    Produced,
) {
    match result {
        Ok(n) => {
            let end = state.end + n;
            (
                SendState { end, flush: end == state.bytes.len(), ..state },
                Produced::Transmit { from: state.pos as usize, to: end as usize },
            )
        },
        Err(TransportError::Done) => if state.pos != state.end {
            (state, Produced::Transmit { from: state.pos as usize, to: state.end as usize })
        } else {
            (state, Produced::Pending)
        },
        Err(TransportError::BufferTooShort) => (
            SendState { flush: true, ..state },
            Produced::Ready,
        ),
        Err(err) => (state, Produced::Close(err)),
    }
}

/// Whether a connection can have answered so when it was asked for a packet at the end of what has
/// been produced.
pub open spec fn fits(state: SendState, result: Result<usize, TransportError>) -> bool {
    result matches Ok(n) ==> state.end + n <= state.bytes.len()
}

/// How much was written, or the error, by a result of `quiche::Connection::send`.
pub open spec fn length_of(answer: Result<(usize, quiche::SendInfo), TransportError>) -> Result<
    usize,
    TransportError,
> {
    match answer {
        Ok(written) => Ok(written.0),
        Err(err) => Err(err),
    }
}

/// Whether the connection can have answered so, and have left itself and the buffer so, when it was
/// asked for a packet behind what has been produced.
pub open spec fn can_produce(
    before: quiche::Connection,
    asked: SendState,
    result: Result<usize, TransportError>,
    after: quiche::Connection,
    written: SendState,
) -> bool {
    exists|answer: Result<(usize, quiche::SendInfo), TransportError>|
        result == length_of(answer) && #[trigger] crate::backend::transport::can_send(
            before,
            asked.bytes.skip(asked.end),
            answer,
            after,
            written.bytes.skip(asked.end),
        )
}

/// Whether a connection is sure to have no packet when it is asked for one at the end of what has
/// been produced: there is no room for one, or the connection is over.
pub open spec fn silent(connection: quiche::Connection, state: SendState) -> bool {
    state.end == state.bytes.len() || crate::backend::transport::status(connection).over()
}

/// The error with which such a connection answers.
pub open spec fn silence(state: SendState) -> TransportError {
    if state.end == state.bytes.len() {
        TransportError::BufferTooShort
    } else {
        TransportError::Done
    }
}

/// A part of the contents.
pub open spec fn part_of(bytes: Seq<u8>, from: int, to: int) -> Seq<u8> {
    bytes.subrange(from, to)
}

/// The buffer, with how much has been produced and how much has been handed over.
pub struct SendBuffer {
    send_flush: bool,
    send_end: usize,
    send_pos: usize,
    send_buf: Vec<u8>,
}

impl View for SendBuffer {
    type V = SendState;

    closed spec fn view(&self) -> SendState {
        SendState {
            flush: self.send_flush,
            pos: self.send_pos as int,
            end: self.send_end as int,
            bytes: self.send_buf@,
        }
    }
}

impl SendBuffer {
    /// An empty buffer of the given size.
    pub fn new(size: usize) -> (r: Self)
        ensures
            r@.wf(),
            r@ == (SendState {
                flush: false,
                pos: 0,
                end: 0,
                bytes: Seq::new(size as nat, |i: int| 0u8),
            }),
    {
        let r = SendBuffer {
            send_flush: false,
            send_end: 0,
            send_pos: 0,
            send_buf: vec![0u8; size],
        };
        assert(r@.bytes =~= Seq::new(size as nat, |i: int| 0u8));
        r
    }

    /// The size of the buffer.
    pub fn len(&self) -> (r: usize)
        ensures
            r == self@.bytes.len(),
    {
        self.send_buf.len()
    }

    /// How much has been handed to the socket.
    pub fn position(&self) -> (r: usize)
        ensures
            r == self@.pos,
    {
        self.send_pos
    }

    /// A part of the buffer.
    pub fn part(&self, from: usize, to: usize) -> (r: &[u8])
        requires
            from <= to <= self@.bytes.len(),
        ensures
            r@ == part_of(self@.bytes, from as int, to as int),
            r@ == self@.bytes.subrange(from as int, to as int),
    {
        slice_subrange(self.send_buf.as_slice(), from, to)
    }

    /// The step after an event.
    pub fn step(&mut self, event: SendEvent) -> (step: SendStep)
        requires
            old(self)@.wf(),
            possible(old(self)@, event),
        ensures
            final(self)@.wf(),
            (final(self)@, step) == step_of(old(self)@, event),
            step is Produce ==> !final(self)@.flush,
    {
        assert(self.send_buf.len() == self.send_buf@.len());
        match event {
            SendEvent::Transmitted(n) => {
                self.send_pos += n;
                return SendStep::Ready;
            },
            SendEvent::Flushed(n) => {
                self.send_pos += n;
            },
            SendEvent::Polled => {},
        }
        if self.send_flush {
            if self.send_pos != self.send_end {
                return SendStep::Flush { from: self.send_pos };
            }
            self.send_pos = 0;
            self.send_end = 0;
            self.send_flush = false;
        }
        SendStep::Produce { at: self.send_end }
    }

    /// Asks the connection for a packet, to be written behind what has been produced. Nothing that
    /// has been produced is touched. A connection that is over has no packet, and is not changed.
    pub fn produce(&mut self, connection: &mut quiche::Connection) -> (r: Result<
        usize,
        TransportError,
    >)
        requires
            old(self)@.wf(),
        ensures
            final(self)@.wf(),
            final(self)@ == (SendState { bytes: final(self)@.bytes, ..old(self)@ }),
            final(self)@.bytes.len() == old(self)@.bytes.len(),
            final(self)@.bytes.subrange(0, old(self)@.end) == old(self)@.bytes.subrange(
                0,
                old(self)@.end,
            ),
            fits(final(self)@, r),
            can_produce(*old(connection), old(self)@, r, *final(connection), final(self)@),
            silent(*old(connection), old(self)@) ==> {
                &&& r == Err::<usize, _>(silence(old(self)@))
                &&& *final(connection) == *old(connection)
                &&& final(self)@ == old(self)@
            },
    {
        let at: usize = self.send_end;
        let (_, rest) = self.send_buf.as_mut_slice().split_at_mut(at);
        assert(rest@ =~= old(self)@.bytes.skip(at as int));
        let answer = connection.send(rest);
        let ghost answered = answer;
        let r = match answer {
            Ok((n, _)) => Ok(n),
            Err(err) => Err(err),
        };
        assert(crate::backend::transport::can_send(
            *old(connection),
            old(self)@.bytes.skip(at as int),
            answered,
            *connection,
            self@.bytes.skip(at as int),
        )) by {
            assert(rest@ =~= self.send_buf@.skip(at as int));
        }
        assert(silent(*old(connection), old(self)@) ==> self.send_buf@ =~= old(self)@.bytes);
        r
    }

    /// What follows from the connection's answer.
    pub fn on_produced(&mut self, result: Result<usize, TransportError>) -> (produced: Produced)
        requires
            old(self)@.wf(),
            !old(self)@.flush,
            fits(old(self)@, result),
        ensures
            final(self)@.wf(),
            (final(self)@, produced) == produced_of(old(self)@, result),
            result matches Ok(n) ==> (produced matches Produced::Transmit { from, to } && from == old(
                self,
            )@.pos && to == old(self)@.end + n),
            result matches Err(err) ==> (err is Done ==> if old(self)@.pos < old(self)@.end {
                produced matches Produced::Transmit { from, to } && from == old(self)@.pos && to
                    == old(self)@.end
            } else {
                produced is Pending
            }),
            produced matches Produced::Transmit { from, to } ==> from <= to
                <= final(self)@.bytes.len(),
    {
        assert(self.send_buf.len() == self.send_buf@.len());
        match result {
            Ok(n) => {
                self.send_end += n;
                self.send_flush = self.send_end == self.send_buf.len();
                Produced::Transmit { from: self.send_pos, to: self.send_end }
            },
            Err(TransportError::Done) => {
                if self.send_pos != self.send_end {
                    Produced::Transmit { from: self.send_pos, to: self.send_end }
                } else {
                    Produced::Pending
                }
            },
            Err(TransportError::BufferTooShort) => {
                self.send_flush = true;
                Produced::Ready
            },
            Err(err) => Produced::Close(err),
        }
    }
}

/// Whatever the connection answers and the socket takes, what is handed to the socket lies in the
/// buffer: a flush starts in it, and a part ends in it and does not start behind its end.
pub proof fn lemma_parts_lie_in_buffer(
    state: SendState,
    event: SendEvent,
    result: Result<usize, TransportError>,
)
    requires
        state.wf(),
        state.bytes.len() <= usize::MAX,
        possible(state, event),
        fits(step_of(state, event).0, result),
    ensures
        step_of(state, event).0.wf(),
        step_of(state, event).1 matches SendStep::Flush { from } ==> from <= state.bytes.len(),
        step_of(state, event).1 is Produce ==> {
            let (next, produced) = produced_of(step_of(state, event).0, result);
            &&& next.wf()
            &&& produced matches Produced::Transmit { from, to } ==> from <= to
                <= state.bytes.len()
        },
{
}

/// When the socket takes everything that was produced, a flush ends, and the next packet is
/// produced at the front of the buffer.
pub proof fn lemma_flush_completes(state: SendState, n: usize)
    requires
        state.wf(),
        state.flush,
        state.pos + n == state.end,
    ensures
        possible(state, SendEvent::Flushed(n)),
        step_of(state, SendEvent::Flushed(n)).1 == (SendStep::Produce { at: 0 }),
        step_of(state, SendEvent::Flushed(n)).0 == state.restarted(),
{
}

/// A packet that fills the buffer, or one that does not fit, makes the next poll a flush, unless
/// the socket has taken everything by then.
pub proof fn lemma_full_buffer_is_flushed(state: SendState, result: Result<usize, TransportError>)
    requires
        state.wf(),
        !state.flush,
        fits(state, result),
        result == Err::<usize, _>(TransportError::BufferTooShort) || (result matches Ok(n)
            && state.end + n == state.bytes.len()),
    ensures
        ({
            let next = produced_of(state, result).0;
            &&& next.flush
            &&& next.pos != next.end ==> step_of(next, SendEvent::Polled).1 == (SendStep::Flush {
                from: next.pos as usize,
            })
        }),
{
}

/// A part of the buffer holds the bytes from its first position up to its last, each in its place.
pub proof fn lemma_part(bytes: Seq<u8>, from: int, to: int)
    requires
        0 <= from <= to <= bytes.len(),
    ensures
        part_of(bytes, from, to).len() == to - from,
        forall|i: int| 0 <= i < to - from ==> part_of(bytes, from, to)[i] == bytes[from + i],
{
}

/// What the socket takes counts as handed over, and nothing else does: an event moves the position
/// by what it says was taken, and touches neither the contents nor, unless a flush ends, how much
/// was produced.
pub proof fn lemma_socket_takes(state: SendState, event: SendEvent)
    requires
        state.wf(),
        possible(state, event),
    ensures
        ({
            let taken: int = match event {
                SendEvent::Polled => 0,
                SendEvent::Flushed(n) => n as int,
                SendEvent::Transmitted(n) => n as int,
            };
            let next = step_of(state, event).0;
            &&& next.bytes == state.bytes
            &&& next.pos == state.pos + taken || (next.pos == 0 && state.flush && state.pos + taken
                == state.end)
            &&& next.end == state.end || (next.end == 0 && state.flush && state.pos + taken
                == state.end)
            &&& next.flush ==> state.flush
            &&& state.flush && !next.flush ==> state.pos + taken == state.end
        }),
{
}

/// After a part was transmitted the poll is over. While a flush goes on, the rest of the buffer
/// from the position on is handed to the socket. When there is nothing to flush, or everything was
/// flushed, a packet is asked for: at the front after a flush, else behind what was produced.
pub proof fn lemma_next_step(state: SendState, event: SendEvent)
    requires
        state.wf(),
        state.bytes.len() <= usize::MAX,
        possible(state, event),
    ensures
        event is Transmitted ==> step_of(state, event).1 is Ready,
        event is Polled && !state.flush ==> {
            &&& step_of(state, event).1 == (SendStep::Produce { at: state.end as usize })
            &&& step_of(state, event).0 == state
        },
        event is Polled && state.flush && state.pos != state.end ==> {
            &&& step_of(state, event).1 == (SendStep::Flush { from: state.pos as usize })
            &&& step_of(state, event).0 == state
        },
        event is Polled && state.flush && state.pos == state.end ==> {
            &&& step_of(state, event).1 == (SendStep::Produce { at: 0 })
            &&& step_of(state, event).0.pos == 0
            &&& step_of(state, event).0.end == 0
            &&& !step_of(state, event).0.flush
        },
        event matches SendEvent::Flushed(n) ==> if state.pos + n != state.end {
            &&& step_of(state, event).1 == (SendStep::Flush { from: (state.pos + n) as usize })
            &&& step_of(state, event).0.flush
        } else {
            &&& step_of(state, event).1 == (SendStep::Produce { at: 0 })
            &&& step_of(state, event).0.pos == 0
            &&& step_of(state, event).0.end == 0
            &&& !step_of(state, event).0.flush
        },
        event is Transmitted ==> step_of(state, event).0.flush == state.flush,
{
}

/// A packet of `n` bytes is transmitted together with what was left over before it: from where the
/// socket has got to, up to the end of the packet. It counts as produced, and only then is the
/// buffer to be flushed when it is full.
pub proof fn lemma_packet_is_transmitted(state: SendState, n: usize)
    requires
        state.wf(),
        !state.flush,
        state.bytes.len() <= usize::MAX,
        state.end + n <= state.bytes.len(),
    ensures
        produced_of(state, Ok(n)).1 matches Produced::Transmit { from, to } && {
            &&& from == state.pos
            &&& to == state.end + n
            &&& from <= state.end
            &&& n > 0 ==> from < to
        },
        produced_of(state, Ok(n)).0.pos == state.pos,
        produced_of(state, Ok(n)).0.end == state.end + n,
        produced_of(state, Ok(n)).0.bytes == state.bytes,
        produced_of(state, Ok(n)).0.flush <==> state.end + n == state.bytes.len(),
{
}

/// When the connection has no packet, what is left over is transmitted, and if nothing is, there is
/// nothing to send. A packet that does not fit ends the poll and makes the next one a flush. Any
/// other error is a reason to close the connection. None of this changes what is in the buffer.
pub proof fn lemma_no_packet(state: SendState, err: TransportError)
    requires
        state.wf(),
        !state.flush,
        state.bytes.len() <= usize::MAX,
    ensures
        produced_of(state, Err(err)).0.pos == state.pos,
        produced_of(state, Err(err)).0.end == state.end,
        produced_of(state, Err(err)).0.bytes == state.bytes,
        produced_of(state, Err(err)).0.flush <==> err is BufferTooShort,
        err is Done && state.pos < state.end ==> {
            produced_of(state, Err(err)).1 matches Produced::Transmit { from, to } && from == state.pos
                && to == state.end
        },
        err is Done && state.pos == state.end ==> produced_of(state, Err(err)).1 is Pending,
        err is BufferTooShort ==> produced_of(state, Err(err)).1 is Ready,
        !(err is Done) && !(err is BufferTooShort) ==> produced_of(state, Err(err)).1
            == Produced::Close(err),
{
}

/// What is produced goes out once: a packet is handed to the socket behind everything that was
/// handed over before, and when the socket has taken it, asking a connection that has no further
/// packet gives nothing to send.
pub proof fn lemma_packet_goes_out_once(state: SendState, n: usize)
    requires
        state.wf(),
        !state.flush,
        state.bytes.len() <= usize::MAX,
        state.end + n < state.bytes.len(),
    ensures
        ({
            let produced = produced_of(state, Ok(n));
            let taken = (state.end + n - state.pos) as usize;
            let sent = step_of(produced.0, SendEvent::Transmitted(taken));
            let polled = step_of(sent.0, SendEvent::Polled);
            &&& produced.1 matches Produced::Transmit { from, to } && to - from == taken
            &&& possible(produced.0, SendEvent::Transmitted(taken))
            &&& sent.1 is Ready
            &&& polled.1 == (SendStep::Produce { at: (state.end + n) as usize })
            &&& produced_of(polled.0, Err(TransportError::Done)).1 is Pending
        }),
{
}

/// A connection that is asked for a packet is handed the whole room behind what was produced, and
/// what is written there is what it wrote: it answers with how much that is, or with its error.
pub proof fn lemma_asked_behind_produced(
    before: quiche::Connection,
    asked: SendState,
    result: Result<usize, TransportError>,
    after: quiche::Connection,
    written: SendState,
)
    requires
        asked.wf(),
        can_produce(before, asked, result, after, written),
    ensures
        exists|answer: Result<(usize, quiche::SendInfo), TransportError>|
            {
                &&& #[trigger] crate::backend::transport::can_send(
                    before,
                    asked.bytes.subrange(asked.end, asked.bytes.len() as int),
                    answer,
                    after,
                    written.bytes.skip(asked.end),
                )
                &&& answer matches Ok(packet) ==> result == Ok::<usize, TransportError>(packet.0)
                &&& answer matches Err(err) ==> result == Err::<usize, TransportError>(err)
            },
{
    assert(asked.bytes.skip(asked.end) =~= asked.bytes.subrange(
        asked.end,
        asked.bytes.len() as int,
    ));
    let answer = choose|answer: Result<(usize, quiche::SendInfo), TransportError>|
        result == length_of(answer) && #[trigger] crate::backend::transport::can_send(
            before,
            asked.bytes.skip(asked.end),
            answer,
            after,
            written.bytes.skip(asked.end),
        );
    assert(crate::backend::transport::can_send(
        before,
        asked.bytes.subrange(asked.end, asked.bytes.len() as int),
        answer,
        after,
        written.bytes.skip(asked.end),
    ));
}

/// A socket may take any part of what it is handed: after a part is handed over, or the rest of the
/// buffer in a flush, every number of bytes up to its length is possible, and no more is. A
/// connection may be polled at any time.
pub proof fn lemma_socket_may_take(state: SendState, n: usize)
    requires
        state.wf(),
    ensures
        possible(state, SendEvent::Polled),
        possible(state, SendEvent::Flushed(n)) <==> state.flush && n <= state.bytes.len() - state.pos,
        possible(state, SendEvent::Transmitted(n)) <==> n <= state.end - state.pos,
{
}

/// A connection may answer with any packet that the room behind what was produced can hold, and
/// with any error.
pub proof fn lemma_any_packet_that_fits(state: SendState, n: usize, err: TransportError)
    ensures
        fits(state, Ok(n)) <==> n <= state.bytes.len() - state.end,
        fits(state, Err(err)),
{
}

} // verus!

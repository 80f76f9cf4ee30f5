//! Streams.
use crate::bytes::copy;
use crate::error::Error;
use crate::Message;
use std::task::Poll;
use tokio::io::ReadBuf;
use vstd::prelude::*;

verus! {

/// `tokio::io::ReadBuf`, a buffer that is being filled.
#[verifier::external_type_specification]
#[verifier::external_body]
pub struct ExReadBuf<'a>(ReadBuf<'a>);

/// The filled bytes of a buffer.
pub uninterp spec fn filled(buf: ReadBuf<'_>) -> Seq<u8>;

/// How many bytes the buffer can hold.
pub uninterp spec fn capacity(buf: ReadBuf<'_>) -> nat;

/// `tokio::io::ReadBuf::remaining`: the room behind what is filled, which is never more than the
/// buffer holds.
pub assume_specification<'a>[ ReadBuf::<'a>::remaining ](buf: &ReadBuf<'a>) -> (room: usize)
    ensures
        room == capacity(*buf) - filled(*buf).len(),
;

/// `tokio::io::ReadBuf::put_slice`: it writes the bytes behind what is filled, and counts them as
/// filled. It gives up where there is no room.
pub assume_specification<'a>[ ReadBuf::<'a>::put_slice ](buf: &mut ReadBuf<'a>, bytes: &[u8])
    requires
        filled(*old(buf)).len() + bytes@.len() <= capacity(*old(buf)),
    ensures
        filled(*final(buf)) == filled(*old(buf)) + bytes@,
        capacity(*final(buf)) == capacity(*old(buf)),
;

/// Whether a buffer has room for the bytes.
pub open spec fn has_room(buf: ReadBuf<'_>, bytes: Seq<u8>) -> bool {
    filled(buf).len() + bytes.len() <= capacity(buf)
}

/// What delivering bytes to a buffer does: they are filled in behind what was filled before.
pub open spec fn delivered(before: ReadBuf<'_>, after: ReadBuf<'_>, bytes: Seq<u8>) -> bool {
    &&& filled(after) == filled(before) + bytes
    &&& capacity(after) == capacity(before)
}

/// Delivers bytes to a buffer that has room for them.
pub fn deliver(buf: &mut ReadBuf<'_>, bytes: &[u8])
    requires
        has_room(*old(buf), bytes@),
    ensures
        delivered(*old(buf), *final(buf), bytes@),
{
    buf.put_slice(bytes);
}

/// What a read comes to.
#[derive(Debug)]
pub enum ReadOutcome {
    /// The buffer was filled.
    Delivered,
    /// The stream is at its end.
    Closed,
    /// There is an error to report; the stream goes on.
    Reported(Error),
    /// The connection is gone.
    BrokenPipe,
    /// Give up: the buffer has no room for what arrived.
    Oversized,
}

/// What a read comes to, and what it does to the buffer.
pub open spec fn read_outcome(
    received: Poll<Option<Result<Message, Error>>>,
    before: ReadBuf<'_>,
    after: ReadBuf<'_>,
    r: Poll<ReadOutcome>,
) -> bool {
    match received {
        Poll::Pending => r is Pending && after == before,
        Poll::Ready(None) => r == Poll::Ready(ReadOutcome::BrokenPipe) && after == before,
        Poll::Ready(Some(Err(err))) => r == Poll::Ready(ReadOutcome::Reported(err)) && after
            == before,
        Poll::Ready(Some(Ok(Message::Close(_)))) => r == Poll::Ready(ReadOutcome::Closed) && after
            == before,
        Poll::Ready(Some(Ok(Message::Data { stream_id, bytes, fin }))) => if has_room(
            before,
            bytes@,
        ) {
            r == Poll::Ready(ReadOutcome::Delivered) && delivered(before, after, bytes@)
        } else {
            r == Poll::Ready(ReadOutcome::Oversized) && after == before
        },
    }
}

/// Whether a message writes these bytes to the stream with this ID.
pub open spec fn writes(message: Message, id: u64, written: Seq<u8>) -> bool {
    message matches Message::Data { stream_id, bytes, fin } && stream_id == id && bytes@ == written
        && !fin
}

/// Whether a message shuts down the stream with this ID.
pub open spec fn shuts_down(message: Message, id: u64) -> bool {
    message == Message::Close(id)
}

/// A stream of a connection.
#[derive(Debug)]
pub struct QuicStream {
    pub(crate) id: u64,
}

impl View for QuicStream {
    type V = u64;

    closed spec fn view(&self) -> u64 {
        self.id
    }
}

impl QuicStream {
    /// The stream with an ID.
    pub fn new(id: u64) -> (r: Self)
        ensures
            r@ == id,
    {
        QuicStream { id }
    }

    /// The ID of the stream.
    pub fn id(&self) -> (r: u64)
        ensures
            r == self@,
    {
        self.id
    }

    /// Reads what the connection has for the stream.
    pub fn poll_read(
        &mut self,
        received: Poll<Option<Result<Message, Error>>>,
        buf: &mut ReadBuf<'_>,
    ) -> (r: Poll<ReadOutcome>)
        ensures
            *final(self) == *old(self),
            read_outcome(received, *old(buf), *final(buf), r),
            match received {
                Poll::Pending => r is Pending && *final(buf) == *old(buf),
                Poll::Ready(None) => r == Poll::Ready(ReadOutcome::BrokenPipe) && *final(buf)
                    == *old(buf),
                Poll::Ready(Some(Err(err))) => r == Poll::Ready(ReadOutcome::Reported(err))
                    && *final(buf) == *old(buf),
                Poll::Ready(Some(Ok(Message::Close(_)))) => r == Poll::Ready(ReadOutcome::Closed)
                    && *final(buf) == *old(buf),
                Poll::Ready(Some(Ok(Message::Data { stream_id, bytes, fin }))) => if has_room(
                    *old(buf),
                    bytes@,
                ) {
                    r == Poll::Ready(ReadOutcome::Delivered) && delivered(
                        *old(buf),
                        *final(buf),
                        bytes@,
                    )
                } else {
                    r == Poll::Ready(ReadOutcome::Oversized) && *final(buf) == *old(buf)
                },
            },
    {
        match received {
            Poll::Pending => Poll::Pending,
            Poll::Ready(None) => Poll::Ready(ReadOutcome::BrokenPipe),
            Poll::Ready(Some(Err(err))) => Poll::Ready(ReadOutcome::Reported(err)),
            Poll::Ready(Some(Ok(Message::Close(_)))) => Poll::Ready(ReadOutcome::Closed),
            Poll::Ready(Some(Ok(Message::Data { stream_id: _, bytes, fin: _ }))) => {
                if buf.remaining() < bytes.len() {
                    return Poll::Ready(ReadOutcome::Oversized);
                }
                deliver(buf, bytes.as_slice());
                Poll::Ready(ReadOutcome::Delivered)
            },
        }
    }

    /// The message that writes bytes to the stream.
    pub fn write_message(&self, bytes: &[u8]) -> (message: Message)
        ensures
            writes(message, self@, bytes@),
            message matches Message::Data { stream_id, bytes: written, fin } && stream_id == self@
                && written@ == bytes@ && !fin,
    {
        Message::Data { stream_id: self.id, bytes: copy(bytes), fin: false }
    }

    /// The message that shuts the stream down.
    pub fn shutdown_message(&self) -> (message: Message)
        ensures
            shuts_down(message, self@),
            message == Message::Close(self@),
    {
        Message::Close(self.id)
    }
}

/// A delivery loses nothing: what was filled before still stands in front, and the bytes that were
/// delivered stand behind it.
pub proof fn lemma_delivered_is_filled(before: ReadBuf<'_>, after: ReadBuf<'_>, bytes: Seq<u8>)
    requires
        delivered(before, after, bytes),
    ensures
        filled(after).len() == filled(before).len() + bytes.len(),
        filled(after).take(filled(before).len() as int) == filled(before),
        filled(after).skip(filled(before).len() as int) == bytes,
{
    assert(filled(after).take(filled(before).len() as int) =~= filled(before));
    assert(filled(after).skip(filled(before).len() as int) =~= bytes);
}

/// Messages that are read one after the other stand in the buffer one behind the other.
pub proof fn lemma_deliveries_in_order(
    before: ReadBuf<'_>,
    between: ReadBuf<'_>,
    after: ReadBuf<'_>,
    first: Seq<u8>,
    second: Seq<u8>,
)
    requires
        delivered(before, between, first),
        delivered(between, after, second),
    ensures
        delivered(before, after, first + second),
{
    assert(filled(after) =~= filled(before) + (first + second));
}

/// A read gives what a write put in: a message that writes bytes to a stream, read into a buffer
/// that has room for them, fills them in behind what was there. Without room the buffer stays as it
/// is.
pub proof fn lemma_read_gives_what_was_written(
    message: Message,
    id: u64,
    bytes: Seq<u8>,
    before: ReadBuf<'_>,
    after: ReadBuf<'_>,
    r: Poll<ReadOutcome>,
)
    requires
        writes(message, id, bytes),
        read_outcome(Poll::Ready(Some(Ok(message))), before, after, r),
    ensures
        filled(before).len() + bytes.len() <= capacity(before) ==> {
            &&& r == Poll::Ready(ReadOutcome::Delivered)
            &&& filled(after) == filled(before) + bytes
            &&& capacity(after) == capacity(before)
        },
        filled(before).len() + bytes.len() > capacity(before) ==> {
            &&& r == Poll::Ready(ReadOutcome::Oversized)
            &&& after == before
        },
        message matches Message::Data { stream_id, bytes: written, fin } && stream_id == id
            && written@ == bytes && !fin,
{
}

/// Whatever bytes arrive, for whatever stream and whether they are the last or not, are delivered
/// if there is room for them.
pub proof fn lemma_data_is_delivered(
    stream_id: u64,
    bytes: Vec<u8>,
    fin: bool,
    before: ReadBuf<'_>,
    after: ReadBuf<'_>,
    r: Poll<ReadOutcome>,
)
    requires
        read_outcome(
            Poll::Ready(Some(Ok(Message::Data { stream_id, bytes, fin }))),
            before,
            after,
            r,
        ),
    ensures
        r == Poll::Ready(ReadOutcome::Delivered) <==> filled(before).len() + bytes@.len()
            <= capacity(before),
        r == Poll::Ready(ReadOutcome::Delivered) ==> filled(after) == filled(before) + bytes@,
        r != Poll::Ready(ReadOutcome::Delivered) ==> r == Poll::Ready(ReadOutcome::Oversized)
            && after == before,
{
}

/// A read that delivers nothing leaves the buffer alone. It waits exactly while nothing has
/// arrived, finds the pipe broken exactly when the connection is gone, is told the end of the
/// stream by a shutdown, and passes an error on as it is.
pub proof fn lemma_other_reads(
    received: Poll<Option<Result<Message, Error>>>,
    id: u64,
    before: ReadBuf<'_>,
    after: ReadBuf<'_>,
    r: Poll<ReadOutcome>,
)
    requires
        read_outcome(received, before, after, r),
    ensures
        r is Pending <==> received is Pending,
        r == Poll::Ready(ReadOutcome::BrokenPipe) <==> (received matches Poll::Ready(None)),
        received matches Poll::Ready(Some(Err(err))) ==> r == Poll::Ready(
            ReadOutcome::Reported(err),
        ),
        received matches Poll::Ready(Some(Ok(message))) ==> (shuts_down(message, id) ==> r
            == Poll::Ready(ReadOutcome::Closed)),
        received == Poll::Ready(Some(Ok::<Message, Error>(Message::Close(id)))) ==> r
            == Poll::Ready(ReadOutcome::Closed),
        r != Poll::Ready(ReadOutcome::Delivered) ==> after == before,
{
}

/// A shutdown is told by the ID of the stream, and writes nothing.
pub proof fn lemma_shutdown_message(message: Message, id: u64, other: u64, bytes: Seq<u8>)
    requires
        shuts_down(message, id),
    ensures
        message == Message::Close(id),
        !writes(message, other, bytes),
{
}

} // verus!

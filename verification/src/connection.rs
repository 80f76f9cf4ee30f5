//! Connections and the IDs of their streams.
//!
//! The two low bits of a stream ID say what the stream is: the lowest is set if the server opened
//! it, the other if it goes one way only.
use crate::error::Error;
use crate::stream::QuicStream;
use std::collections::HashMap;
use std::marker::PhantomData;
use vstd::prelude::*;

verus! {

broadcast use vstd::std_specs::hash::group_hash_axioms;

/// Which end of a connection this is.
pub trait Backend {

}

/// Indicates that the connection is from the client to a server.
pub struct ToServer;

impl Backend for ToServer {

}

/// Indicates that the connection is from the server to a client.
pub struct ToClient;

impl Backend for ToClient {

}

/// The low bits of a stream that the client opens, in both directions.
pub const CLIENT_BIDI: u64 = 0;

/// The low bits of a stream that the server opens, in both directions.
pub const SERVER_BIDI: u64 = 1;

/// The low bits of a stream that the client opens, in one direction.
pub const CLIENT_UNI: u64 = 2;

/// The low bits of a stream that the server opens, in one direction.
pub const SERVER_UNI: u64 = 3;

/// The ID of the stream with a number, which is a 62-bit integer, and low bits that say what it is.
/// What a number has beyond 62 bits is lost.
pub open spec fn stream_id_of(number: u64, kind: u64) -> int {
    (number % 0x4000_0000_0000_0000) * 4 + kind
}

/// The streams of a connection, and whatever reaches each of them.
pub struct QuicConnection<T: Backend, S> {
    stream_map: HashMap<u64, S>,
    state: PhantomData<T>,
}

/// The ID of the stream with a number and low bits that say what it is.
fn stream_id(number: u64, kind: u64) -> (id: u64)
    requires
        kind < 4,
    ensures
        id == stream_id_of(number, kind),
{
    let id: u64 = (number << 2) | kind;
    assert(id == (number % 0x4000_0000_0000_0000) * 4 + kind) by (bit_vector)
        requires
            id == (number << 2) | kind,
            kind < 4,
    ;
    id
}

impl<T: Backend, S> QuicConnection<T, S> {
    /// What reaches each open stream, by its ID.
    pub closed spec fn streams(self) -> Map<u64, S> {
        self.stream_map@
    }

    /// A connection without streams.
    pub fn new() -> (r: Self)
        ensures
            r.streams() == Map::<u64, S>::empty(),
    {
        QuicConnection { stream_map: HashMap::new(), state: PhantomData }
    }

    /// Opens the stream with an ID that is not taken.
    fn open(&mut self, id: u64, sender: S) -> (r: Result<QuicStream, Error>)
        ensures
            if old(self).streams().contains_key(id) {
                r == Err::<QuicStream, Error>(Error::IdAlreadyTaken(id)) && final(self).streams()
                    == old(self).streams()
            } else {
                r matches Ok(stream) && stream@ == id && final(self).streams() == old(
                    self,
                ).streams().insert(id, sender)
            },
    {
        if self.stream_map.contains_key(&id) {
            return Err(Error::IdAlreadyTaken(id));
        }
        self.stream_map.insert(id, sender);
        Ok(QuicStream::new(id))
    }

    /// What reaches the stream with an ID.
    pub fn sender(&self, id: u64) -> (r: Option<&S>)
        ensures
            match r {
                Some(sender) => self.streams().contains_key(id) && *sender == self.streams()[id],
                None => !self.streams().contains_key(id),
            },
    {
        self.stream_map.get(&id)
    }

    /// Takes up a stream that the other end has opened.
    pub fn adopt(&mut self, id: u64, sender: S) -> (stream: QuicStream)
        ensures
            stream@ == id,
            adopted(old(self).streams(), final(self).streams(), id, sender, stream),
            final(self).streams() == old(self).streams().insert(id, sender),
    {
        self.stream_map.insert(id, sender);
        QuicStream::new(id)
    }
}

/// What taking up a stream of the other end comes to.
pub open spec fn adopted<S>(
    before: Map<u64, S>,
    after: Map<u64, S>,
    id: u64,
    sender: S,
    stream: QuicStream,
) -> bool {
    stream@ == id && after == before.insert(id, sender)
}

/// What opening the stream with an ID comes to: it is refused if there is an open stream with this
/// ID, and then nothing changes.
pub open spec fn opened<S>(
    before: Map<u64, S>,
    after: Map<u64, S>,
    id: int,
    sender: S,
    r: Result<QuicStream, Error>,
) -> bool {
    if before.contains_key(id as u64) {
        r == Err::<QuicStream, Error>(Error::IdAlreadyTaken(id as u64)) && after == before
    } else {
        r matches Ok(stream) && stream@ == id && after == before.insert(id as u64, sender)
    }
}

impl<S> QuicConnection<ToClient, S> {
    /// Opens a new stream to the client, in both directions.
    ///
    /// # Arguments
    /// * `id`: A 62 bit integer.
    pub fn bidi(&mut self, id: u64, sender: S) -> (r: Result<QuicStream, Error>)
        ensures
            opened(
                old(self).streams(),
                final(self).streams(),
                stream_id_of(id, SERVER_BIDI),
                sender,
                r,
            ),
    {
        self.open(stream_id(id, SERVER_BIDI), sender)
    }

    /// Opens a new stream to the client, in one direction.
    ///
    /// # Arguments
    /// * `id`: A 62 bit integer.
    pub fn uni(&mut self, id: u64, sender: S) -> (r: Result<QuicStream, Error>)
        ensures
            opened(
                old(self).streams(),
                final(self).streams(),
                stream_id_of(id, SERVER_UNI),
                sender,
                r,
            ),
    {
        self.open(stream_id(id, SERVER_UNI), sender)
    }
}

impl<S> QuicConnection<ToServer, S> {
    /// Opens a new stream to the server, in both directions.
    ///
    /// # Arguments
    /// * `id`: A 62 bit integer.
    pub fn bidi(&mut self, id: u64, sender: S) -> (r: Result<QuicStream, Error>)
        ensures
            opened(
                old(self).streams(),
                final(self).streams(),
                stream_id_of(id, CLIENT_BIDI),
                sender,
                r,
            ),
    {
        self.open(stream_id(id, CLIENT_BIDI), sender)
    }

    /// Opens a new stream to the server, in one direction.
    ///
    /// # Arguments
    /// * `id`: A 62 bit integer.
    pub fn uni(&mut self, id: u64, sender: S) -> (r: Result<QuicStream, Error>)
        ensures
            opened(
                old(self).streams(),
                final(self).streams(),
                stream_id_of(id, CLIENT_UNI),
                sender,
                r,
            ),
    {
        self.open(stream_id(id, CLIENT_UNI), sender)
    }
}

/// Streams of different kinds have different IDs, and so have streams of one kind with different
/// 62-bit numbers.
pub proof fn lemma_stream_ids_distinct(number1: u64, kind1: u64, number2: u64, kind2: u64)
    requires
        number1 < 0x4000_0000_0000_0000,
        number2 < 0x4000_0000_0000_0000,
        kind1 < 4,
        kind2 < 4,
        stream_id_of(number1, kind1) == stream_id_of(number2, kind2),
    ensures
        number1 == number2,
        kind1 == kind2,
{
}

/// Every stream ID is that of one kind of stream and a 62-bit number.
pub proof fn lemma_stream_id_parts(id: u64)
    ensures
        stream_id_of(id / 4, id % 4) == id,
        id / 4 < 0x4000_0000_0000_0000,
{
}

/// An ID can be opened once: opening it again is refused, and leaves the first stream as it is.
pub proof fn lemma_second_open_refused<S>(
    before: Map<u64, S>,
    between: Map<u64, S>,
    after: Map<u64, S>,
    id: u64,
    first: S,
    second: S,
    r1: Result<QuicStream, Error>,
    r2: Result<QuicStream, Error>,
)
    requires
        opened(before, between, id as int, first, r1),
        opened(between, after, id as int, second, r2),
    ensures
        r2 == Err::<QuicStream, Error>(Error::IdAlreadyTaken(id)),
        after == between,
{
}

/// Opening a stream succeeds if and only if its ID is not taken. Then the stream has that ID, what
/// was given reaches it, and no other stream is touched. If it is refused, the error names the ID,
/// and nothing changes.
pub proof fn lemma_opening<S>(
    before: Map<u64, S>,
    after: Map<u64, S>,
    id: u64,
    sender: S,
    r: Result<QuicStream, Error>,
    other: u64,
)
    requires
        opened(before, after, id as int, sender, r),
    ensures
        r is Ok <==> !before.contains_key(id),
        r matches Ok(stream) ==> stream@ == id && after.contains_key(id) && after[id] == sender,
        r is Err ==> r == Err::<QuicStream, Error>(Error::IdAlreadyTaken(id)) && after == before,
        other != id ==> (after.contains_key(other) <==> before.contains_key(other)),
        other != id && before.contains_key(other) ==> after[other] == before[other],
{
}

/// A stream of the other end that is taken up has its ID, what was given reaches it, and no other
/// stream is touched. Its ID is taken from then on.
pub proof fn lemma_adopting<S>(
    before: Map<u64, S>,
    between: Map<u64, S>,
    id: u64,
    sender: S,
    stream: QuicStream,
    other: u64,
    after: Map<u64, S>,
    second: S,
    r: Result<QuicStream, Error>,
)
    requires
        adopted(before, between, id, sender, stream),
        opened(between, after, id as int, second, r),
    ensures
        stream@ == id,
        between.contains_key(id) && between[id] == sender,
        other != id ==> (between.contains_key(other) <==> before.contains_key(other)),
        other != id && before.contains_key(other) ==> between[other] == before[other],
        r == Err::<QuicStream, Error>(Error::IdAlreadyTaken(id)),
        after == between,
{
}

/// The low two bits of a stream ID are those that say what the stream is, and the rest is its
/// number, of which only 62 bits count.
pub proof fn lemma_stream_id_bits(number: u64, kind: u64)
    requires
        kind < 4,
    ensures
        0 <= stream_id_of(number, kind) <= u64::MAX,
        stream_id_of(number, kind) % 4 == kind,
        stream_id_of(number, kind) / 4 == number % 0x4000_0000_0000_0000,
{
}

/// The ends of a connection do not open the same stream: those of the client have even IDs, those
/// of the server odd ones, and a stream in both directions is never one in a single direction.
pub proof fn lemma_ends_do_not_collide(number1: u64, number2: u64)
    ensures
        stream_id_of(number1, CLIENT_BIDI) % 2 == 0 && stream_id_of(number1, CLIENT_UNI) % 2 == 0,
        stream_id_of(number2, SERVER_BIDI) % 2 == 1 && stream_id_of(number2, SERVER_UNI) % 2 == 1,
        stream_id_of(number1, CLIENT_BIDI) != stream_id_of(number2, CLIENT_UNI),
        stream_id_of(number1, SERVER_BIDI) != stream_id_of(number2, SERVER_UNI),
{
}

} // verus!

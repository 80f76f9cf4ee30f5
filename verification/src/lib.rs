//! QUIC listeners and sockets: the decisions behind them.
use vstd::prelude::*;

pub mod address;
pub mod backend;
pub mod bytes;
pub mod clock;
pub mod config;
pub mod connection;
pub mod crypto;
pub mod error;
pub mod packet;
pub mod random;
pub mod stream;

verus! {

/// What a stream and its connection tell each other.
#[derive(Debug)]
pub enum Message {
    /// Bytes of a stream, and whether they are its last.
    Data { stream_id: u64, bytes: Vec<u8>, fin: bool },
    /// The stream with this ID is shut down.
    Close(u64),
}

} // verus!

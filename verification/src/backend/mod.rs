pub mod client;
pub mod clients;
pub mod handshake;
pub mod manager;
pub mod send;
pub mod server;
pub mod timer;
pub mod transport;

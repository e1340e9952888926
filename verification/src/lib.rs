//! Relay core of a two-player game server: pairing of connections into a
//! session and forwarding of each player's byte stream to the other.

pub mod acceptor;
pub mod gameplay;
pub mod packet;
pub mod relay;
pub mod session;
pub mod stream;
pub mod ui;

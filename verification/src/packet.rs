//! The messages that the two players exchange.
//!
//! The relay never looks inside a message: it forwards bytes, and a read on
//! a socket may end anywhere within one. How a message is laid out on the
//! wire, and how the receiving player finds its end, is the business of the
//! players' own code.

use vstd::prelude::*;

verus! {

/// Announces a player by name.
#[derive(Debug)]
pub struct JoinPacket {
    pub username: String,
}

/// One message of the game.
#[derive(Debug)]
pub enum GamePacket {
    Join(JoinPacket),
    Leave,
    Move,
    Shoot,
}

} // verus!

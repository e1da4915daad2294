//! Protocol core of a game server: the digest that keys the stream cipher,
//! the frame layout, the session's decisions and the user-name policy.
use vstd::prelude::*;

pub mod sha1;
pub mod user;
pub mod opcode;
pub mod opcode_file;
pub mod frame;
pub mod session;
pub mod handshake;

verus! {

} // verus!

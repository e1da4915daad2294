//! The key exchange that opens every connection: the server sends a magic
//! word, then reads a client key and answers with a server key, twice.
use vstd::prelude::*;
use crate::session::SessionError;
use rand_core::RngCore;

verus! {

/// Bytes in each key.
pub const KEY_LEN: usize = 128;

/// The word that the server sends first: `1` as a little-endian `u32`.
pub open spec fn magic_word() -> Seq<u8> {
    seq![1u8, 0u8, 0u8, 0u8]
}

/// Relies on rand_core's RngCore::try_fill_bytes for rand's OsRng: on
/// success the buffer keeps its length and holds bytes from the operating
/// system's generator; `false` when the generator failed.
#[verifier::external_body]
fn fill_random(buf: &mut Vec<u8>) -> (ok: bool)
    ensures
        final(buf)@.len() == old(buf)@.len(),
{
    rand::rngs::OsRng.try_fill_bytes(buf.as_mut_slice()).is_ok()
}

/// A fresh server key, or `Io` when the generator failed.
fn server_key() -> (r: Result<Vec<u8>, SessionError>)
    ensures
        r matches Ok(k) ==> k@.len() == KEY_LEN,
        r matches Err(e) ==> e == SessionError::Io,
{
    let mut key: Vec<u8> = Vec::new();
    while key.len() < KEY_LEN
        invariant
            key@.len() <= KEY_LEN,
        decreases KEY_LEN - key.len(),
    {
        key.push(0);
    }
    if fill_random(&mut key) {
        Ok(key)
    } else {
        Err(SessionError::Io)
    }
}

#[derive(Clone, Copy, Debug, PartialEq, Eq, Structural)]
pub enum HandshakeStep {
    SendMagic,
    ReadClientKey1,
    SendServerKey1,
    ReadClientKey2,
    SendServerKey2,
    Done,
}

/// What the connection does next for the key exchange.
pub enum HandshakeAction {
    /// Write these bytes.
    Write(Vec<u8>),
    /// Read exactly this many bytes and hand them to `on_read`.
    Read(usize),
    /// The four keys are known.
    Finished,
}

/// The key exchange of one connection.
pub struct Handshake {
    pub step: HandshakeStep,
    pub client_key_1: Vec<u8>,
    pub client_key_2: Vec<u8>,
    pub server_key_1: Vec<u8>,
    pub server_key_2: Vec<u8>,
}

impl Handshake {
    pub fn new() -> (r: Handshake)
        ensures
            r.step == HandshakeStep::SendMagic,
    {
        Handshake {
            step: HandshakeStep::SendMagic,
            client_key_1: Vec::new(),
            client_key_2: Vec::new(),
            server_key_1: Vec::new(),
            server_key_2: Vec::new(),
        }
    }

    /// The next action; the steps that write move the exchange on. A server
    /// key that cannot be generated ends the exchange with `Io`.
    pub fn next_action(&mut self) -> (r: Result<HandshakeAction, SessionError>)
        ensures
            old(self).step == HandshakeStep::SendMagic ==> final(self).step
                == HandshakeStep::ReadClientKey1 && (r matches Ok(HandshakeAction::Write(b))
                && b@ == magic_word()),
            old(self).step == HandshakeStep::ReadClientKey1 ==> final(self).step == old(self).step
                && (r matches Ok(HandshakeAction::Read(n)) && n == KEY_LEN),
            old(self).step == HandshakeStep::SendServerKey1 ==> (r matches Ok(HandshakeAction::Write(b))
                && b@.len() == KEY_LEN && b@ == final(self).server_key_1@ && final(self).step
                == HandshakeStep::ReadClientKey2) || (r == Err::<HandshakeAction, SessionError>(
                SessionError::Io) && final(self).step == old(self).step && final(self).server_key_1
                == old(self).server_key_1),
            old(self).step == HandshakeStep::ReadClientKey2 ==> final(self).step == old(self).step
                && (r matches Ok(HandshakeAction::Read(n)) && n == KEY_LEN),
            old(self).step == HandshakeStep::SendServerKey2 ==> (r matches Ok(HandshakeAction::Write(b))
                && b@.len() == KEY_LEN && b@ == final(self).server_key_2@ && final(self).step
                == HandshakeStep::Done) || (r == Err::<HandshakeAction, SessionError>(
                SessionError::Io) && final(self).step == old(self).step && final(self).server_key_2
                == old(self).server_key_2),
            old(self).step == HandshakeStep::Done ==> final(self).step == old(self).step && (r
                matches Ok(HandshakeAction::Finished)),
            final(self).client_key_1 == old(self).client_key_1,
            final(self).client_key_2 == old(self).client_key_2,
            old(self).step != HandshakeStep::SendServerKey1 ==> final(self).server_key_1
                == old(self).server_key_1,
            old(self).step != HandshakeStep::SendServerKey2 ==> final(self).server_key_2
                == old(self).server_key_2,
    {
        match self.step {
            HandshakeStep::SendMagic => {
                self.step = HandshakeStep::ReadClientKey1;
                let magic: Vec<u8> = vec![0x01, 0x00, 0x00, 0x00];
                proof {
                    assert(magic@ =~= magic_word());
                }
                Ok(HandshakeAction::Write(magic))
            },
            HandshakeStep::ReadClientKey1 => Ok(HandshakeAction::Read(KEY_LEN)),
            HandshakeStep::SendServerKey1 => {
                let key = server_key()?;
                self.server_key_1 = key.clone();
                self.step = HandshakeStep::ReadClientKey2;
                Ok(HandshakeAction::Write(key))
            },
            HandshakeStep::ReadClientKey2 => Ok(HandshakeAction::Read(KEY_LEN)),
            HandshakeStep::SendServerKey2 => {
                let key = server_key()?;
                self.server_key_2 = key.clone();
                self.step = HandshakeStep::Done;
                Ok(HandshakeAction::Write(key))
            },
            HandshakeStep::Done => Ok(HandshakeAction::Finished),
        }
    }

    /// Takes a client key that was read as asked.
    pub fn on_read(&mut self, bytes: Vec<u8>)
        requires
            old(self).step == HandshakeStep::ReadClientKey1 || old(self).step
                == HandshakeStep::ReadClientKey2,
            bytes@.len() == KEY_LEN,
        ensures
            old(self).step == HandshakeStep::ReadClientKey1 ==> final(self).step
                == HandshakeStep::SendServerKey1 && final(self).client_key_1@ == bytes@
                && final(self).client_key_2 == old(self).client_key_2,
            old(self).step == HandshakeStep::ReadClientKey2 ==> final(self).step
                == HandshakeStep::SendServerKey2 && final(self).client_key_2@ == bytes@
                && final(self).client_key_1 == old(self).client_key_1,
            final(self).server_key_1 == old(self).server_key_1,
            final(self).server_key_2 == old(self).server_key_2,
    {
        if self.step == HandshakeStep::ReadClientKey1 {
            self.client_key_1 = bytes;
            self.step = HandshakeStep::SendServerKey1;
        } else {
            self.client_key_2 = bytes;
            self.step = HandshakeStep::SendServerKey2;
        }
    }
}

} // verus!

//! The secure packet pipeline.
//!
//! An untrusted datagram passes three stages before it may reach the
//! device: the fixed binary frame decode with its size ceiling, the
//! authenticated decryption, and the plaintext command decode. Each stage's
//! failure is contained to the one packet and reported exactly; a packet
//! that passes all three becomes a typed command, and a recognized movement
//! becomes the clamped device command bytes.

use vstd::prelude::*;

use crate::commands;
use crate::crypto::{dec_of, CryptoManager};
use crate::protocol::{spec_decode_packet, spec_decode_payload, Decode, DecodeError, Packet, Payload};

verus! {

/// Which stage of the pipeline rejected a packet.
#[derive(Clone, Copy, Debug, PartialEq, Eq, Structural)]
pub enum PipelineError {
    /// The datagram's binary framing was rejected.
    Frame(DecodeError),
    /// The ciphertext was tampered with, or the nonce or key do not match.
    Authentication,
    /// The decrypted plaintext's command decode was rejected.
    Payload(DecodeError),
}

/// Turns untrusted datagrams into typed commands under the process key.
pub struct PacketHandler {
    crypto: CryptoManager,
}

impl PacketHandler {
    /// The key under which packets are accepted.
    pub closed spec fn spec_key(&self) -> Seq<u8> {
        self.crypto.spec_key()
    }

    /// The held key has the cipher's key length.
    pub closed spec fn wf(&self) -> bool {
        self.crypto.wf()
    }

    /// The whole pipeline at spec level: frame decode, then decryption,
    /// then command decode, each failure reported with its stage.
    pub open spec fn spec_handle(key: Seq<u8>, data: Seq<u8>) -> Result<Payload, PipelineError> {
        match spec_decode_packet(data) {
            Err(e) => Err(PipelineError::Frame(e)),
            Ok((nonce, ct)) => match dec_of(key, nonce, ct) {
                Option::None => Err(PipelineError::Authentication),
                Option::Some(pt) => match spec_decode_payload(pt) {
                    Err(e) => Err(PipelineError::Payload(e)),
                    Ok(p) => Ok(p),
                },
            },
        }
    }

    /// Creates a handler with a fresh process-lifetime key.
    pub fn new() -> (r: PacketHandler)
        ensures
            r.wf(),
    {
        PacketHandler { crypto: CryptoManager::new() }
    }

    /// The raw key bytes, as handed to a client at hello time.
    pub fn key(&self) -> (r: &[u8])
        ensures
            r@ == self.spec_key(),
    {
        self.crypto.key()
    }

    /// Runs one untrusted datagram through the pipeline. Every malformed or
    /// tampered input is a per-packet error, never a panic.
    pub fn handle_encrypted_packet(&self, data: &[u8]) -> (r: Result<Payload, PipelineError>)
        requires
            self.wf(),
        ensures
            r == Self::spec_handle(self.spec_key(), data@),
    {
        let packet = match Packet::from_slice(data) {
            Ok(p) => p,
            Err(e) => {
                return Err(PipelineError::Frame(e));
            },
        };
        let plain = match self.crypto.decrypt(packet.nonce.as_slice(), packet.data.as_slice()) {
            Ok(p) => p,
            Err(_) => {
                return Err(PipelineError::Authentication);
            },
        };
        match Payload::from_slice(plain.as_slice()) {
            Ok(p) => Ok(p),
            Err(e) => Err(PipelineError::Payload(e)),
        }
    }

    /// What a decoded command asks of the device: a recognized movement
    /// becomes the clamped movement command bytes; an unrecognized command
    /// asks nothing.
    pub fn process_payload(&self, payload: &Payload) -> (r: Option<Vec<u8>>)
        ensures
            match *payload {
                Payload::Move(x, y) => r matches Some(cmd) && cmd@ == commands::move_command_bytes(
                    x as int,
                    y as int,
                ),
                Payload::Unknown => r is None,
            },
    {
        match payload {
            Payload::Move(x, y) => Some(commands::move_command(*x, *y)),
            Payload::Unknown => None,
        }
    }
}

} // verus!

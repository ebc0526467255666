//! Key management and authenticated decryption.
//!
//! One symmetric key is generated fresh per process lifetime and handed to
//! the client verbatim; every later packet is accepted exactly when it
//! decrypts and authenticates under that key. Decryption is the single
//! trust boundary between the network and the device: the cipher itself is
//! relied upon, and everything around it is verified against the name
//! `dec_of` given to its result.

use vstd::prelude::*;

use chacha20poly1305::aead::{Aead, OsRng};
use chacha20poly1305::{ChaCha20Poly1305, KeyInit};

use crate::protocol::NONCE_LEN;

verus! {

/// Key length of the cipher in use.
pub const KEY_LEN: usize = 32;

/// What the cipher returns for a key, nonce and ciphertext. Decryption is
/// deterministic, so the result is a function of those three alone; `None`
/// is an authentication failure.
pub uninterp spec fn dec_of(key: Seq<u8>, nonce: Seq<u8>, ct: Seq<u8>) -> Option<Seq<u8>>;

/// Relies on `chacha20poly1305::ChaCha20Poly1305` (`KeyInit::new`,
/// `Aead::decrypt`): authenticated decryption either returns the plaintext
/// or fails, and is a deterministic function of key, nonce and ciphertext
/// alone.
#[verifier::external_body]
fn chacha_decrypt(key: &[u8], nonce: &[u8], ct: &[u8]) -> (r: Option<Vec<u8>>)
    requires
        key@.len() == KEY_LEN as int,
        nonce@.len() == NONCE_LEN as int,
    ensures
        r is Some <==> dec_of(key@, nonce@, ct@) is Some,
        r matches Some(p) ==> dec_of(key@, nonce@, ct@) == Some(p@),
{
    let cipher = ChaCha20Poly1305::new(chacha20poly1305::Key::from_slice(key));
    cipher.decrypt(chacha20poly1305::Nonce::from_slice(nonce), ct).ok()
}

/// Relies on `ChaCha20Poly1305::generate_key` with the operating system's
/// randomness: a fresh key of the cipher's key length. Nothing more is
/// assumed of a random value.
#[verifier::external_body]
fn generate_key() -> (r: Vec<u8>)
    ensures
        r@.len() == KEY_LEN as int,
{
    let key = ChaCha20Poly1305::generate_key(&mut OsRng);
    key.as_slice().to_vec()
}

/// Why a packet was rejected at the trust boundary.
#[derive(Clone, Copy, Debug, PartialEq, Eq, Structural)]
pub enum CryptoError {
    /// The ciphertext was tampered with, or the nonce or key do not match.
    Authentication,
}

/// Holds the process-lifetime symmetric key and decrypts packets under it.
pub struct CryptoManager {
    key: Vec<u8>,
}

impl CryptoManager {
    /// The managed key bytes.
    pub closed spec fn spec_key(&self) -> Seq<u8> {
        self.key@
    }

    /// The key has the cipher's key length.
    pub open spec fn wf(&self) -> bool {
        self.spec_key().len() == KEY_LEN as int
    }

    /// Generates a fresh key for the process lifetime.
    pub fn new() -> (r: CryptoManager)
        ensures
            r.wf(),
    {
        CryptoManager { key: generate_key() }
    }

    /// The raw key bytes, as handed to a client at hello time.
    pub fn key(&self) -> (r: &[u8])
        ensures
            r@ == self.spec_key(),
    {
        self.key.as_slice()
    }

    /// Authenticated decryption of one packet: the plaintext exactly when
    /// ciphertext, nonce and key match, an authentication error otherwise —
    /// never a panic on attacker-controlled input.
    pub fn decrypt(&self, nonce: &[u8], data: &[u8]) -> (r: Result<Vec<u8>, CryptoError>)
        requires
            self.wf(),
            nonce@.len() == NONCE_LEN as int,
        ensures
            r matches Ok(p) ==> dec_of(self.spec_key(), nonce@, data@) == Some(p@),
            r is Err <==> dec_of(self.spec_key(), nonce@, data@) is None,
    {
        match chacha_decrypt(self.key.as_slice(), nonce, data) {
            Some(p) => Ok(p),
            None => Err(CryptoError::Authentication),
        }
    }
}

} // verus!

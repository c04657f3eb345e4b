//! The static network identity: a 32-byte private key loaded from disk (or
//! freshly generated on first run, by the caller owning the file system), and
//! the public key derived from it on demand.

use vstd::prelude::*;
use vstd::string::*;

verus! {

/// The static private key used to establish authenticated connections.
/// Valid keys hold exactly 32 bytes, not all zero.
#[derive(Debug, Clone)]
pub struct NoisePrivKey(pub Vec<u8>);

/// The static public key derived from a [`NoisePrivKey`].
#[derive(Debug, Clone)]
pub struct NoisePubKey(pub Vec<u8>);

/// An error related to the initialization of the communication keys.
#[derive(Debug, Clone, Copy, PartialEq, Eq, Structural)]
pub enum KeyError {
    ReadingKey,
    WritingKey,
    InvalidKeySize,
}

impl KeyError {
    /// A human-readable description of the error.
    pub fn message(&self) -> (r: String)
        ensures
            *self is ReadingKey ==> r@ == "Error reading Noise key"@,
            *self is WritingKey ==> r@ == "Error writing Noise key"@,
            *self is InvalidKeySize ==> r@ == "Invalid Noise key length"@,
    {
        match *self {
            KeyError::ReadingKey => String::from_str("Error reading Noise key"),
            KeyError::WritingKey => String::from_str("Error writing Noise key"),
            KeyError::InvalidKeySize => String::from_str("Invalid Noise key length"),
        }
    }
}

/// Whether every byte of the sequence is zero.
pub open spec fn is_all_zero_seq(s: Seq<u8>) -> bool {
    forall|i: int| 0 <= i < s.len() ==> s[i] == 0
}

/// A well-formed private key: exactly 32 bytes, not all zero.
pub open spec fn privkey_wf(k: NoisePrivKey) -> bool {
    &&& k.0@.len() == 32
    &&& !is_all_zero_seq(k.0@)
}

/// Whether every byte of `bytes` is zero.
pub fn bytes_all_zero(bytes: &Vec<u8>) -> (r: bool)
    ensures
        r == is_all_zero_seq(bytes@),
{
    let mut i: usize = 0;
    while i < bytes.len()
        invariant
            i <= bytes@.len(),
            forall|j: int| 0 <= j < i ==> bytes@[j] == 0,
        decreases bytes@.len() - i,
    {
        if bytes[i] != 0 {
            return false;
        }
        i += 1;
    }
    true
}

/// Turns the raw bytes of a secret file into the static private key.
///
/// A file whose length is not exactly 32 bytes is an [`KeyError::InvalidKeySize`]
/// error. An all-zero 32-byte key is a fatal corruption of the key material,
/// not a valid input: callers must check for it first (see [`bytes_all_zero`]).
pub fn noise_key_from_bytes(bytes: Vec<u8>) -> (r: Result<NoisePrivKey, KeyError>)
    requires
        bytes@.len() == 32 ==> !is_all_zero_seq(bytes@),
    ensures
        r is Ok <==> bytes@.len() == 32,
        r is Ok ==> r->Ok_0.0@ == bytes@ && privkey_wf(r->Ok_0),
        r is Err ==> r->Err_0 is InvalidKeySize,
{
    if bytes.len() == 32 {
        Ok(NoisePrivKey(bytes))
    } else {
        Err(KeyError::InvalidKeySize)
    }
}

/// The public key that sodiumoxide's curve25519 base-point multiplication
/// derives from a 32-byte secret scalar. The result is a function of the
/// secret bytes alone.
pub uninterp spec fn noise_public_key_of(secret: Seq<u8>) -> Seq<u8>;

/// Relies on sodiumoxide's `crypto::scalarmult::curve25519::scalarmult_base`:
/// it multiplies the curve's base point by the 32-byte secret scalar and
/// returns the resulting 32-byte group element, a deterministic function of
/// the secret bytes alone.
#[verifier::external_body]
fn scalarmult_base_bytes(secret: &Vec<u8>) -> (r: Vec<u8>)
    requires
        secret@.len() == 32,
    ensures
        r@ == noise_public_key_of(secret@),
        r@.len() == 32,
{
    let mut scalar = sodiumoxide::crypto::scalarmult::curve25519::Scalar([0u8; 32]);
    scalar.0.copy_from_slice(&secret[..]);
    sodiumoxide::crypto::scalarmult::curve25519::scalarmult_base(&scalar).0.to_vec()
}

impl NoisePrivKey {
    /// The static public key derived from this private key. The derivation is
    /// deterministic and recomputed on demand, never cached.
    pub fn public_key(&self) -> (r: NoisePubKey)
        requires
            self.0@.len() == 32,
        ensures
            r.0@ == noise_public_key_of(self.0@),
            r.0@.len() == 32,
    {
        NoisePubKey(scalarmult_base_bytes(&self.0))
    }
}

} // verus!

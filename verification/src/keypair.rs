//! Turning a secret-key text into a signing keypair.

use vstd::prelude::*;
use solana_sdk::signer::keypair::Keypair;
use crate::secret_key::{
    byte_list_text, lemma_byte_list_text_round_trip, secret_key_bytes, secret_key_bytes_of,
};

verus! {

#[verifier::external_type_specification]
#[verifier::external_body]
pub struct ExKeypair(Keypair);

/// The ed25519 public key (compressed, 32 bytes) that the 32-byte secret key
/// `secret` derives.
pub uninterp spec fn ed25519_public_key(secret: Seq<u8>) -> Seq<u8>;

/// Why a secret-key text gives no keypair.
#[derive(Debug, Clone, Copy, PartialEq, Eq)]
pub enum LoadKeypairError {
    /// A piece of the text does not read as a byte.
    UnparsableByte,
    /// The text does not list exactly 64 bytes.
    IncorrectLength,
    /// The 64 bytes are no valid ed25519 keypair.
    InvalidSecretKey,
}

/// Whether 64 bytes are an ed25519 keypair: the secret key, then the public
/// key that it derives.
pub open spec fn is_keypair_bytes(bytes: Seq<u8>) -> bool {
    &&& bytes.len() == 64
    &&& bytes.subrange(32, 64) == ed25519_public_key(bytes.subrange(0, 32))
}

/// `Keypair::from_bytes` on 64 bytes, with the keypair's `to_bytes()`. Its
/// source reads the first 32 bytes as the secret key, the last 32 as the
/// public key, and succeeds exactly when the public key equals the one
/// derived from the secret key; the keypair then keeps both as given, so
/// `to_bytes()` gives back the 64 bytes. The error, a type of
/// `ed25519_dalek` that this crate cannot name, becomes `None`.
#[verifier::external_body]
fn keypair_from_bytes(bytes: &[u8]) -> (r: Option<(Keypair, [u8; 64])>)
    requires
        bytes@.len() == 64,
    ensures
        r is Some <==> bytes@.subrange(32, 64) == ed25519_public_key(bytes@.subrange(0, 32)),
        r matches Some((_, b)) ==> b@ == bytes@,
{
    Keypair::from_bytes(bytes).ok().map(|k| {
        let b = k.to_bytes();
        (k, b)
    })
}

/// The keypair that a secret-key text such as `"[12, 200, ...]"` describes,
/// with its 64 bytes (`to_bytes()`), which are the bytes the text lists.
/// Errs with `UnparsableByte` when a piece of the text does not read as a
/// byte, with `IncorrectLength` when the text does not list exactly 64
/// bytes, and with `InvalidSecretKey` when those bytes are no keypair.
pub fn keypair_from_secret_text(text: &str) -> (r: Result<(Keypair, [u8; 64]), LoadKeypairError>)
    ensures
        r matches Err(LoadKeypairError::UnparsableByte) <==> secret_key_bytes_of(text@) is None,
        r matches Err(LoadKeypairError::IncorrectLength) <==> (secret_key_bytes_of(
            text@,
        ) matches Some(b) && b.len() != 64),
        r matches Err(LoadKeypairError::InvalidSecretKey) <==> (secret_key_bytes_of(
            text@,
        ) matches Some(b) && b.len() == 64 && !is_keypair_bytes(b)),
        r is Ok <==> (secret_key_bytes_of(text@) matches Some(b) && is_keypair_bytes(b)),
        r matches Ok((_, b)) ==> secret_key_bytes_of(text@) == Some(b@),
{
    let bytes = match secret_key_bytes(text) {
        Some(bytes) => bytes,
        None => return Err(LoadKeypairError::UnparsableByte),
    };
    if bytes.len() != 64 {
        return Err(LoadKeypairError::IncorrectLength);
    }
    match keypair_from_bytes(bytes.as_slice()) {
        Some(kb) => Ok(kb),
        None => Err(LoadKeypairError::InvalidSecretKey),
    }
}

/// A keypair's 64 bytes, printed as `{:?}` prints a byte array, load back
/// as that keypair: `keypair_from_secret_text` succeeds on the printed text
/// and returns a keypair with exactly those bytes.
pub proof fn lemma_printed_keypair_loads(bytes: Seq<u8>)
    requires
        is_keypair_bytes(bytes),
    ensures
        secret_key_bytes_of(byte_list_text(bytes)) == Some(bytes),
        secret_key_bytes_of(byte_list_text(bytes)) matches Some(b) && is_keypair_bytes(b),
{
    lemma_byte_list_text_round_trip(bytes);
}

} // verus!

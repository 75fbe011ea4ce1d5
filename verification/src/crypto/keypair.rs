//! Generation of an Ed25519 identity key pair, rendered as lowercase hex.

use vstd::prelude::*;

verus! {

/// The lowercase hexadecimal digit for a value below sixteen.
pub open spec fn hex_digit(v: u8) -> char {
    if v < 10 {
        (('0' as u8) + v) as char
    } else {
        (('a' as u8) + (v - 10)) as char
    }
}

/// Lowercase hex encoding: two characters per byte, high nibble first.
pub open spec fn hex_lower(bytes: Seq<u8>) -> Seq<char> {
    Seq::new(
        2 * bytes.len(),
        |i: int|
            if i % 2 == 0 {
                hex_digit(bytes[i / 2] / 16)
            } else {
                hex_digit(bytes[i / 2] % 16)
            },
    )
}

/// The Ed25519 public key (compressed Edwards point) that belongs to a secret key.
pub uninterp spec fn ed25519_public_key(secret: Seq<u8>) -> Seq<u8>;

/// `hex::encode`: renders every byte as two lowercase hex digits, high
/// nibble first (the crate's table is `0123456789abcdef`).
#[verifier::external_body]
fn hex_encode(data: &[u8]) -> (s: String)
    ensures
        s@ == hex_lower(data@),
{
    hex::encode(data)
}

/// `ed25519_dalek::SigningKey::from_bytes`, then `to_bytes` and
/// `verifying_key().to_bytes()` on the key: the first half is the secret
/// handed in (the key stores it unchanged), the second the public key of
/// that secret.
#[verifier::external_body]
fn signing_key_bytes(secret: &[u8; 32]) -> (pair: ([u8; 32], [u8; 32]))
    ensures
        pair.0@ == secret@,
        pair.1@ == ed25519_public_key(secret@),
{
    let key = ed25519_dalek::SigningKey::from_bytes(secret);
    (key.to_bytes(), key.verifying_key().to_bytes())
}

/// `rand::rngs::OsRng.fill_bytes` on a 32-byte buffer. The bytes come
/// from the operating system, so nothing is promised of them; the crate
/// panics if the operating system cannot supply them.
#[verifier::external_body]
fn random_secret() -> [u8; 32] {
    let mut secret = [0u8; 32];
    rand::RngCore::fill_bytes(&mut rand::rngs::OsRng, &mut secret);
    secret
}

/// The key pair of a given 32-byte secret: `(private_hex, public_hex)`,
/// where the private half is the secret in hex and the public half the
/// Ed25519 public key of that secret in hex.
pub fn keypair_from_secret(secret: &[u8; 32]) -> (keys: (String, String))
    ensures
        keys.0@ == hex_lower(secret@),
        keys.1@ == hex_lower(ed25519_public_key(secret@)),
        keys.0@.len() == 64,
        keys.1@.len() == 64,
{
    let (private_bytes, public_bytes) = signing_key_bytes(secret);
    let private_hex = hex_encode(&private_bytes);
    let public_hex = hex_encode(&public_bytes);
    (private_hex, public_hex)
}

/// Generates a fresh key pair from 32 bytes of operating-system randomness.
/// Returns `(private_hex, public_hex)`.
pub fn generate_keypair() -> (keys: (String, String))
    ensures
        exists|secret: Seq<u8>|
            secret.len() == 32 && keys.0@ == hex_lower(secret) && keys.1@ == hex_lower(
                ed25519_public_key(secret),
            ),
        keys.0@.len() == 64,
        keys.1@.len() == 64,
{
    let secret = random_secret();
    keypair_from_secret(&secret)
}

} // verus!

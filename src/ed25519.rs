//! The Ed25519 signature scheme of the `ursa` crate, seen through contracts.
//!
//! Each function here makes one call into `ursa` and hands back the raw key
//! bytes, or the text of the scheme's error; everything that is decided about
//! them happens in verified code.
use ursa::keys::{KeyGenOption, PrivateKey};
use ursa::signatures::ed25519::Ed25519Sha512;
use ursa::signatures::SignatureScheme;
use vstd::prelude::*;

verus! {

/// The 32-byte public key that Ed25519 derives from the 32-byte `secret`
/// (`PublicKey::from(&SecretKey)` of `ed25519-dalek`).
pub uninterp spec fn public_of_secret(secret: Seq<u8>) -> Seq<u8>;

/// The (public, private) bytes that `ursa`'s Ed25519 key generation derives from `seed`.
pub uninterp spec fn seeded_keypair(seed: Seq<u8>) -> (Seq<u8>, Seq<u8>);

/// How `ursa`'s Ed25519 key generation answers `secret` given as an expanded private
/// key: `None` when it accepts it, else the text of the error it reports.
pub uninterp spec fn secret_key_rejection(secret: Seq<u8>) -> Option<Seq<char>>;

/// Relies on `Ed25519Sha512::keypair(None)` of `ursa`: it draws a secret from the
/// operating system's random source with `Keypair::generate` of `ed25519-dalek`, which
/// derives the public key from that secret, and always returns `Ok`. The public bytes
/// are the 32 bytes of the compressed public key; the private bytes are the 64 bytes of
/// `Keypair::to_bytes`, the secret followed by the public key.
#[verifier::external_body]
pub(crate) fn ed25519_random_keypair() -> (r: Result<(Vec<u8>, Vec<u8>), String>)
    ensures
        r is Ok,
        r is Ok ==> r->Ok_0.0@.len() == 32 && r->Ok_0.1@.len() == 64,
        r is Ok ==> r->Ok_0.1@.subrange(32, 64) == r->Ok_0.0@,
        r is Ok ==> r->Ok_0.0@ == public_of_secret(r->Ok_0.1@.subrange(0, 32)),
{
    match Ed25519Sha512.keypair(None) {
        Ok((public, private)) => Ok((public.0.clone(), private.0.clone())),
        Err(e) => Err(e.to_string()),
    }
}

/// Relies on `Ed25519Sha512::keypair(Some(KeyGenOption::UseSeed(..)))` of `ursa`: it
/// hashes the seed into a ChaCha generator and calls `Keypair::generate` of
/// `ed25519-dalek`, so the keypair depends on the seed alone; it always returns `Ok`,
/// with a 32-byte public key and the 64 bytes of the secret followed by that key.
#[verifier::external_body]
pub(crate) fn ed25519_seeded_keypair(seed: Vec<u8>) -> (r: Result<(Vec<u8>, Vec<u8>), String>)
    ensures
        r is Ok,
        r is Ok ==> (r->Ok_0.0@, r->Ok_0.1@) == seeded_keypair(seed@),
        r is Ok ==> r->Ok_0.0@.len() == 32 && r->Ok_0.1@.len() == 64,
        r is Ok ==> r->Ok_0.1@.subrange(32, 64) == r->Ok_0.0@,
        r is Ok ==> r->Ok_0.0@ == public_of_secret(r->Ok_0.1@.subrange(0, 32)),
{
    match Ed25519Sha512.keypair(Some(KeyGenOption::UseSeed(seed))) {
        Ok((public, private)) => Ok((public.0.clone(), private.0.clone())),
        Err(e) => Err(e.to_string()),
    }
}

/// Relies on `Ed25519Sha512::keypair(Some(KeyGenOption::FromSecretKey(..)))` of `ursa`:
/// it reads the bytes with `Keypair::from_bytes` of `ed25519-dalek`, which asks for
/// exactly 64 bytes, a 32-byte secret followed by a 32-byte compressed public point
/// that must decode, and otherwise fails with an error that depends on the bytes alone.
/// On success the keypair's bytes are the input, unchanged, and the public key is its
/// last 32 bytes.
#[verifier::external_body]
pub(crate) fn ed25519_keypair_from_secret(secret: Vec<u8>) -> (r: Result<(Vec<u8>, Vec<u8>), String>)
    ensures
        r is Ok <==> secret_key_rejection(secret@) is None,
        r is Err ==> secret_key_rejection(secret@) == Some(r->Err_0@),
        r is Ok ==> secret@.len() == 64,
        r is Ok ==> r->Ok_0.1@ == secret@ && r->Ok_0.0@ == secret@.subrange(32, 64),
{
    match Ed25519Sha512.keypair(Some(KeyGenOption::FromSecretKey(PrivateKey(secret)))) {
        Ok((public, private)) => Ok((public.0.clone(), private.0.clone())),
        Err(e) => Err(e.to_string()),
    }
}

} // verus!

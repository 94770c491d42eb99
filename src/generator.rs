//! The three ways of producing a keypair, and the validation of the raw bytes
//! that the signature scheme hands back.
use crate::ed25519::{
    ed25519_keypair_from_secret, ed25519_random_keypair, ed25519_seeded_keypair,
    public_of_secret, secret_key_rejection, seeded_keypair,
};
use crate::keys::{conversion, KeyError, KeyKind, Sha512PrivateKey, Sha512PublicKey};
use vstd::prelude::*;

verus! {

/// What the generator returns once the signature scheme has produced `public` and
/// `private`: the typed pair when both lengths are right, else the mismatch of the
/// public bytes, or failing that the mismatch of the private bytes.
pub open spec fn lifted(
    r: Result<(Sha512PublicKey, Sha512PrivateKey), KeyError>,
    public: Seq<u8>,
    private: Seq<u8>,
) -> bool {
    match (conversion(KeyKind::Public, public), conversion(KeyKind::Private, private)) {
        (Ok(p), Ok(s)) => r is Ok && r->Ok_0.0@ == p && r->Ok_0.1@ == s,
        (Err(e), _) => r == Err::<(Sha512PublicKey, Sha512PrivateKey), KeyError>(e),
        (Ok(_), Err(e)) => r == Err::<(Sha512PublicKey, Sha512PrivateKey), KeyError>(e),
    }
}

/// Whether `public` and `private` form an Ed25519 keypair in expanded form: the private
/// bytes are a secret followed by the public key, and the public key is derived from
/// that secret.
pub open spec fn is_derived_keypair(public: Seq<u8>, private: Seq<u8>) -> bool {
    &&& private.subrange(32, 64) == public
    &&& public == public_of_secret(private.subrange(0, 32))
}

/// The scheme's error text that a failed generation carries.
pub open spec fn failure_cause(e: KeyError) -> Option<Seq<char>> {
    match e {
        KeyError::GenerationFailed { cause } => Some(cause@),
        KeyError::LengthMismatch { .. } => None,
    }
}

/// What seeded generation returns for `seed`: the keypair that the scheme derives from it.
pub open spec fn seeded_generation(
    seed: Seq<u8>,
    r: Result<(Sha512PublicKey, Sha512PrivateKey), KeyError>,
) -> bool {
    &&& r is Ok
    &&& r->Ok_0.0@ == seeded_keypair(seed).0
    &&& r->Ok_0.1@ == seeded_keypair(seed).1
    &&& is_derived_keypair(r->Ok_0.0@, r->Ok_0.1@)
}

/// What derivation from `secret` returns: when the scheme accepts the secret, the
/// private key is the secret itself and the public key its last 32 bytes; otherwise
/// a generation failure that carries the scheme's error text.
pub open spec fn secret_generation(
    secret: Seq<u8>,
    r: Result<(Sha512PublicKey, Sha512PrivateKey), KeyError>,
) -> bool {
    match secret_key_rejection(secret) {
        None => r is Ok && r->Ok_0.1@ == secret && r->Ok_0.0@ == secret.subrange(32, 64),
        Some(text) => r is Err && failure_cause(r->Err_0) == Some(text),
    }
}

/// Validates raw key bytes produced by a signature scheme and lifts them into typed keys.
pub fn keypair_from_raw(public: &Vec<u8>, private: &Vec<u8>) -> (r: Result<
    (Sha512PublicKey, Sha512PrivateKey),
    KeyError,
>)
    ensures
        lifted(r, public@, private@),
{
    let public_key = match Sha512PublicKey::try_from(public) {
        Ok(k) => k,
        Err(e) => return Err(e),
    };
    let private_key = match Sha512PrivateKey::try_from(private) {
        Ok(k) => k,
        Err(e) => return Err(e),
    };
    Ok((public_key, private_key))
}

/// Turns the outcome of a call into the signature scheme into the generator's result.
fn lift_outcome(raw: Result<(Vec<u8>, Vec<u8>), String>) -> (r: Result<
    (Sha512PublicKey, Sha512PrivateKey),
    KeyError,
>)
    ensures
        raw is Ok ==> lifted(r, raw->Ok_0.0@, raw->Ok_0.1@),
        raw is Err ==> r == Err::<(Sha512PublicKey, Sha512PrivateKey), KeyError>(
            KeyError::GenerationFailed { cause: raw->Err_0 },
        ),
{
    match raw {
        Ok((public, private)) => keypair_from_raw(&public, &private),
        Err(cause) => Err(KeyError::GenerationFailed { cause }),
    }
}

/// Generates a keypair from the operating system's secure random source: a random
/// secret, the public key derived from it, and the private key made of both.
pub fn generate_keypair() -> (r: Result<(Sha512PublicKey, Sha512PrivateKey), KeyError>)
    ensures
        r is Ok,
        is_derived_keypair(r->Ok_0.0@, r->Ok_0.1@),
{
    lift_outcome(ed25519_random_keypair())
}

/// Generates the keypair that `seed` determines: the same seed always gives the same pair.
pub fn generate_keypair_with_seed(seed: Vec<u8>) -> (r: Result<
    (Sha512PublicKey, Sha512PrivateKey),
    KeyError,
>)
    ensures
        seeded_generation(seed@, r),
{
    lift_outcome(ed25519_seeded_keypair(seed))
}

/// Completes an expanded Ed25519 private key (a 32-byte secret followed by its 32-byte
/// public point) into a keypair, without drawing any randomness.
pub fn generate_keypair_with_secret_key(secret_key: Vec<u8>) -> (r: Result<
    (Sha512PublicKey, Sha512PrivateKey),
    KeyError,
>)
    ensures
        secret_generation(secret_key@, r),
{
    lift_outcome(ed25519_keypair_from_secret(secret_key))
}

/// Seeded generation is deterministic: two calls with one seed give the same keypair.
pub proof fn lemma_seeded_generation_deterministic(
    seed: Seq<u8>,
    first: Result<(Sha512PublicKey, Sha512PrivateKey), KeyError>,
    second: Result<(Sha512PublicKey, Sha512PrivateKey), KeyError>,
)
    requires
        seeded_generation(seed, first),
        seeded_generation(seed, second),
    ensures
        first is Ok && second is Ok,
        first->Ok_0.0@ == second->Ok_0.0@,
        first->Ok_0.1@ == second->Ok_0.1@,
{
}

/// Derivation from a secret is consistent: two derivations from the same bytes both
/// succeed, with the same keys, or both fail, with the same error text.
pub proof fn lemma_secret_derivation_consistent(
    secret: Seq<u8>,
    first: Result<(Sha512PublicKey, Sha512PrivateKey), KeyError>,
    second: Result<(Sha512PublicKey, Sha512PrivateKey), KeyError>,
)
    requires
        secret_generation(secret, first),
        secret_generation(secret, second),
    ensures
        first is Ok <==> second is Ok,
        first is Ok ==> first->Ok_0.0@ == second->Ok_0.0@ && first->Ok_0.1@ == second->Ok_0.1@,
        first is Err ==> failure_cause(first->Err_0) == failure_cause(second->Err_0),
{
}

} // verus!

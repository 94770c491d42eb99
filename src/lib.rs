//! Ed25519 keypair generation with fixed-length, validated key value types.
pub mod ed25519;
pub mod generator;
pub mod keys;

pub use generator::{
    generate_keypair, generate_keypair_with_secret_key, generate_keypair_with_seed,
    keypair_from_raw,
};
pub use keys::{
    KeyError, KeyKind, Sha512PrivateKey, Sha512PublicKey, PRIVATE_KEY_LENGTH, PUBLIC_KEY_LENGTH,
};

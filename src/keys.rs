//! Fixed-length key value types and their validated conversions from bytes.
use vstd::prelude::*;

verus! {

/// Length in bytes of an Ed25519 public (verification) key.
pub const PUBLIC_KEY_LENGTH: usize = 32;

/// Length in bytes of an Ed25519 private key in its expanded form.
pub const PRIVATE_KEY_LENGTH: usize = 64;

/// Which kind of key a conversion was building.
#[derive(Clone, Copy, Debug, PartialEq, Eq, Structural)]
pub enum KeyKind {
    Public,
    Private,
}

/// Errors of key conversion and keypair generation.
#[derive(Clone, Debug, PartialEq, Eq)]
pub enum KeyError {
    /// The byte sequence did not have the fixed length of the key kind.
    LengthMismatch { expected: usize, actual: usize, key_kind: KeyKind },
    /// The signature scheme failed; `cause` is its own description of the failure.
    GenerationFailed { cause: String },
}

/// Fixed length of a key of the given kind.
pub open spec fn key_length(kind: KeyKind) -> nat {
    match kind {
        KeyKind::Public => PUBLIC_KEY_LENGTH as nat,
        KeyKind::Private => PRIVATE_KEY_LENGTH as nat,
    }
}

/// What converting `bytes` to a key of `kind` yields: the bytes themselves when the
/// length is the kind's fixed length, else a length mismatch that reports both lengths.
pub open spec fn conversion(kind: KeyKind, bytes: Seq<u8>) -> Result<Seq<u8>, KeyError> {
    if bytes.len() == key_length(kind) {
        Ok(bytes)
    } else {
        Err(
            KeyError::LengthMismatch {
                expected: key_length(kind) as usize,
                actual: bytes.len() as usize,
                key_kind: kind,
            },
        )
    }
}

/// A fresh vector holding the bytes of `bytes`, in order.
fn copy_bytes(bytes: &[u8]) -> (r: Vec<u8>)
    ensures
        r@ == bytes@,
{
    let mut r: Vec<u8> = Vec::with_capacity(bytes.len());
    let mut i: usize = 0;
    while i < bytes.len()
        invariant
            i <= bytes@.len(),
            r@ == bytes@.subrange(0, i as int),
        decreases bytes@.len() - i,
    {
        r.push(bytes[i]);
        i = i + 1;
    }
    assert(r@ =~= bytes@);
    r
}

/// An Ed25519 public key: exactly 32 bytes.
#[derive(Clone, Debug, PartialEq, Eq)]
pub struct Sha512PublicKey([u8; PUBLIC_KEY_LENGTH]);

/// An Ed25519 private key in expanded form: exactly 64 bytes.
#[derive(Clone, Debug, PartialEq, Eq)]
pub struct Sha512PrivateKey([u8; PRIVATE_KEY_LENGTH]);

impl View for Sha512PublicKey {
    type V = Seq<u8>;

    closed spec fn view(&self) -> Seq<u8> {
        self.0@
    }
}

impl View for Sha512PrivateKey {
    type V = Seq<u8>;

    closed spec fn view(&self) -> Seq<u8> {
        self.0@
    }
}

impl Sha512PublicKey {
    /// Builds a public key from a copy of `vector`, which must hold exactly 32 bytes.
    pub fn try_from(vector: &Vec<u8>) -> (r: Result<Self, KeyError>)
        ensures
            match r {
                Ok(k) => conversion(KeyKind::Public, vector@) == Ok::<Seq<u8>, KeyError>(k@),
                Err(e) => conversion(KeyKind::Public, vector@) == Err::<Seq<u8>, KeyError>(e),
            },
    {
        if vector.len() != PUBLIC_KEY_LENGTH {
            return Err(
                KeyError::LengthMismatch {
                    expected: PUBLIC_KEY_LENGTH,
                    actual: vector.len(),
                    key_kind: KeyKind::Public,
                },
            );
        }
        let mut array = [0u8; PUBLIC_KEY_LENGTH];
        let mut i: usize = 0;
        while i < PUBLIC_KEY_LENGTH
            invariant
                vector@.len() == PUBLIC_KEY_LENGTH,
                i <= PUBLIC_KEY_LENGTH,
                array@.len() == PUBLIC_KEY_LENGTH,
                forall|j: int| 0 <= j < i ==> array@[j] == vector@[j],
            decreases PUBLIC_KEY_LENGTH - i,
        {
            array[i] = vector[i];
            i = i + 1;
        }
        assert(array@ =~= vector@);
        Ok(Sha512PublicKey(array))
    }

    /// The 32 bytes of the key, in order.
    pub fn to_vec(&self) -> (r: Vec<u8>)
        ensures
            r@ == self@,
            r@.len() == PUBLIC_KEY_LENGTH,
    {
        copy_bytes(self.0.as_slice())
    }
}

impl Sha512PrivateKey {
    /// Builds a private key from a copy of `vector`, which must hold exactly 64 bytes.
    pub fn try_from(vector: &Vec<u8>) -> (r: Result<Self, KeyError>)
        ensures
            match r {
                Ok(k) => conversion(KeyKind::Private, vector@) == Ok::<Seq<u8>, KeyError>(k@),
                Err(e) => conversion(KeyKind::Private, vector@) == Err::<Seq<u8>, KeyError>(e),
            },
    {
        if vector.len() != PRIVATE_KEY_LENGTH {
            return Err(
                KeyError::LengthMismatch {
                    expected: PRIVATE_KEY_LENGTH,
                    actual: vector.len(),
                    key_kind: KeyKind::Private,
                },
            );
        }
        let mut array = [0u8; PRIVATE_KEY_LENGTH];
        let mut i: usize = 0;
        while i < PRIVATE_KEY_LENGTH
            invariant
                vector@.len() == PRIVATE_KEY_LENGTH,
                i <= PRIVATE_KEY_LENGTH,
                array@.len() == PRIVATE_KEY_LENGTH,
                forall|j: int| 0 <= j < i ==> array@[j] == vector@[j],
            decreases PRIVATE_KEY_LENGTH - i,
        {
            array[i] = vector[i];
            i = i + 1;
        }
        assert(array@ =~= vector@);
        Ok(Sha512PrivateKey(array))
    }

    /// The 64 bytes of the key, in order.
    pub fn to_vec(&self) -> (r: Vec<u8>)
        ensures
            r@ == self@,
            r@.len() == PRIVATE_KEY_LENGTH,
    {
        copy_bytes(self.0.as_slice())
    }
}

/// Every key value holds exactly its kind's fixed number of bytes.
pub proof fn lemma_keys_have_fixed_lengths(public: Sha512PublicKey, private: Sha512PrivateKey)
    ensures
        public@.len() == PUBLIC_KEY_LENGTH,
        private@.len() == PRIVATE_KEY_LENGTH,
{
}

/// Converting bytes of the right length to a key and back gives the same bytes:
/// the conversion keeps every byte, in order.
pub proof fn lemma_round_trip(kind: KeyKind, bytes: Seq<u8>)
    requires
        bytes.len() == key_length(kind),
    ensures
        conversion(kind, bytes) == Ok::<Seq<u8>, KeyError>(bytes),
{
}

/// Bytes of any other length are refused, with a mismatch that names the kind, its
/// fixed length and the length that was given.
pub proof fn lemma_length_rejection(kind: KeyKind, bytes: Seq<u8>)
    requires
        bytes.len() != key_length(kind),
        bytes.len() <= usize::MAX,
    ensures
        conversion(kind, bytes) matches Err(KeyError::LengthMismatch { expected, actual, key_kind })
            && expected == key_length(kind) && actual == bytes.len() && key_kind == kind,
{
}

} // verus!

use diem_crypto::ed25519::ed25519_dalek;
use diem_crypto::ed25519::Ed25519PrivateKey;
use diem_crypto::ed25519::Ed25519PublicKey;
use diem_crypto::ed25519::Ed25519Signature;
use diem_crypto::hash::ACCUMULATOR_PLACEHOLDER_HASH;
use diem_crypto::Signature as SignatureScheme;
use crate::error::outcome_text;
use vstd::prelude::*;

verus! {

/// A 32-byte digest.
#[derive(Clone, Copy, Debug, PartialEq, Eq)]
pub struct HashValue {
    pub bytes: [u8; 32],
}

/// An Ed25519 public key in its 32-byte encoding.
#[derive(Clone, Copy, Debug, PartialEq, Eq)]
pub struct PublicKey {
    pub bytes: [u8; 32],
}

/// An Ed25519 private key: its 32-byte seed. It has no `Debug`, so that no
/// log line shows it.
#[derive(Clone, Copy, PartialEq, Eq)]
pub struct PrivateKey {
    pub bytes: [u8; 32],
}

/// An Ed25519 signature in its 64-byte encoding.
#[derive(Clone, Copy, Debug, PartialEq, Eq)]
pub struct Signature {
    pub bytes: [u8; 64],
}

impl HashValue {
    /// The digest made of zero bytes only.
    pub open spec fn spec_zero() -> HashValue {
        HashValue {
            bytes: [
                0u8, 0u8, 0u8, 0u8, 0u8, 0u8, 0u8, 0u8, 0u8, 0u8, 0u8, 0u8, 0u8, 0u8, 0u8, 0u8,
                0u8, 0u8, 0u8, 0u8, 0u8, 0u8, 0u8, 0u8, 0u8, 0u8, 0u8, 0u8, 0u8, 0u8, 0u8, 0u8,
            ],
        }
    }

    /// The digest that stands for an empty accumulator: the ASCII text
    /// `ACCUMULATOR_PLACEHOLDER_HASH`, filled up with four zero bytes.
    pub open spec fn spec_placeholder() -> HashValue {
        HashValue {
            bytes: [
                65u8, 67u8, 67u8, 85u8, 77u8, 85u8, 76u8, 65u8, 84u8, 79u8, 82u8, 95u8, 80u8, 76u8,
                65u8, 67u8, 69u8, 72u8, 79u8, 76u8, 68u8, 69u8, 82u8, 95u8, 72u8, 65u8, 83u8, 72u8,
                0u8, 0u8, 0u8, 0u8,
            ],
        }
    }

    /// The digest made of zero bytes only.
    pub fn zero() -> (h: HashValue)
        ensures
            h == HashValue::spec_zero(),
    {
        let h = HashValue { bytes: [0u8; 32] };
        assert(h.bytes =~= HashValue::spec_zero().bytes);
        h
    }

    /// Whether two digests hold the same bytes.
    pub fn same(&self, other: &HashValue) -> (r: bool)
        ensures
            r == (*self == *other),
    {
        let mut i: usize = 0;
        while i < 32
            invariant
                0 <= i <= 32,
                forall|j: int| 0 <= j < i ==> self.bytes[j] == other.bytes[j],
            decreases 32 - i,
        {
            if self.bytes[i] != other.bytes[i] {
                return false;
            }
            i += 1;
        }
        assert(self.bytes =~= other.bytes);
        true
    }
}

impl PublicKey {
    /// Whether two keys hold the same bytes.
    pub fn same(&self, other: &PublicKey) -> (r: bool)
        ensures
            r == (*self == *other),
    {
        let mut i: usize = 0;
        while i < 32
            invariant
                0 <= i <= 32,
                forall|j: int| 0 <= j < i ==> self.bytes[j] == other.bytes[j],
            decreases 32 - i,
        {
            if self.bytes[i] != other.bytes[i] {
                return false;
            }
            i += 1;
        }
        assert(self.bytes =~= other.bytes);
        true
    }
}

/// The public key that belongs to a private key.
pub uninterp spec fn ed25519_public_key(private_key: [u8; 32]) -> [u8; 32];

/// The signature that a private key gives on a message. Ed25519 signing uses
/// no randomness, so the key and the message determine it.
pub uninterp spec fn ed25519_signature(private_key: [u8; 32], message: Seq<u8>) -> [u8; 64];

/// What strict Ed25519 verification says of a signature on a message under
/// the key that these 32 bytes encode: that it holds, or the text of the
/// reason why it does not.
pub uninterp spec fn ed25519_check(
    public_key: [u8; 32],
    message: Seq<u8>,
    signature: [u8; 64],
) -> Result<(), Seq<char>>;

/// `ACCUMULATOR_PLACEHOLDER_HASH` of diem_crypto: the constant's bytes are the
/// ASCII text of its own name, filled up with zeros to 32 bytes.
#[verifier::external_body]
pub(crate) fn accumulator_placeholder() -> (h: HashValue)
    ensures
        h == HashValue::spec_placeholder(),
{
    HashValue { bytes: *ACCUMULATOR_PLACEHOLDER_HASH.as_ref() }
}

/// Derives the public key from a private key with diem_crypto's
/// `Ed25519PublicKey::from(&Ed25519PrivateKey)`. The claim is only that the
/// result is a function of the private key.
#[verifier::external_body]
pub(crate) fn derive_public_key(private_key: &PrivateKey) -> (public_key: PublicKey)
    ensures
        public_key.bytes == ed25519_public_key(private_key.bytes),
{
    let secret = Ed25519PrivateKey::try_from(&private_key.bytes[..]).unwrap();
    PublicKey { bytes: Ed25519PublicKey::from(&secret).to_bytes() }
}

/// Signs the bytes of a message with ed25519_dalek's `ExpandedSecretKey::sign`,
/// under the public key derived from the same private key, which is how
/// diem_crypto signs the bytes of a message that it has serialized. The
/// claim is only that the result is a function of the key and the message.
#[verifier::external_body]
pub(crate) fn sign_bytes(private_key: &PrivateKey, message: &Vec<u8>) -> (signature: Signature)
    ensures
        signature.bytes == ed25519_signature(private_key.bytes, message@),
{
    let secret = ed25519_dalek::SecretKey::from_bytes(&private_key.bytes).unwrap();
    let public = ed25519_dalek::PublicKey::from(&secret);
    let expanded = ed25519_dalek::ExpandedSecretKey::from(&secret);
    Signature { bytes: expanded.sign(message, &public).to_bytes() }
}

/// Checks a signature on the bytes of a message with diem_crypto's
/// `Ed25519Signature::verify_arbitrary_msg`, after decoding the key and the
/// signature with `try_from`. A key or a signature that does not decode counts
/// as a failed check. The error is the outside error's text. The claim is
/// only that the outcome is a function of key, message and signature.
#[verifier::external_body]
pub(crate) fn verify_bytes(
    signature: &Signature,
    message: &Vec<u8>,
    public_key: &PublicKey,
) -> (r: Result<(), String>)
    ensures
        outcome_text(r) == ed25519_check(public_key.bytes, message@, signature.bytes),
{
    let key = Ed25519PublicKey::try_from(&public_key.bytes[..]).map_err(|e| e.to_string())?;
    let decoded = Ed25519Signature::try_from(&signature.bytes[..]).map_err(|e| e.to_string())?;
    decoded.verify_arbitrary_msg(message, &key).map_err(|e| e.to_string())
}

} // verus!

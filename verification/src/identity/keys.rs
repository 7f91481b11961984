//! Ed25519 device keys. The key arithmetic is `ed25519-dalek`'s; this module
//! checks lengths, moves bytes and keeps each public key tied to its secret.
use vstd::prelude::*;
use ed25519_dalek::SigningKey;
use rand::rngs::OsRng;
use crate::text::{append_decimal, decimal_chars};

verus! {

pub const ED25519_PRIVATE_KEY_LEN: usize = 32;
pub const ED25519_PUBLIC_KEY_LEN: usize = 32;

/// The Ed25519 public key that belongs to a 32-byte secret key.
pub uninterp spec fn ed25519_public_key_of(secret: Seq<u8>) -> Seq<u8>;

/// Whether 32 bytes are the compressed form of a point on the curve.
pub uninterp spec fn ed25519_point_decompresses(public_key: Seq<u8>) -> bool;

/// `SigningKey::from_bytes`, `SigningKey::verifying_key` and
/// `VerifyingKey::to_bytes`: the public key bytes that belong to `secret`.
/// They are the compression of a curve point, so they decompress again.
#[verifier::external_body]
fn derive_public_key(secret: &[u8; 32]) -> (public_key: [u8; 32])
    ensures
        public_key@ == ed25519_public_key_of(secret@),
        ed25519_point_decompresses(public_key@),
{
    SigningKey::from_bytes(secret).verifying_key().to_bytes()
}

/// `SigningKey::generate` with the operating system's random source, written
/// out with `to_bytes`. Which key comes out is chance.
#[verifier::external_body]
fn generate_secret_key() -> (secret: [u8; 32]) {
    SigningKey::generate(&mut OsRng).to_bytes()
}

/// `VerifyingKey::from_bytes`, written out with `VerifyingKey::to_bytes`:
/// succeeds exactly when the bytes decompress to a curve point, and the key
/// keeps the bytes it was made from, so they come back unchanged; the error
/// is given as its message.
#[verifier::external_body]
fn decode_verifying_key(public_key: &[u8; 32]) -> (key: Result<[u8; 32], String>)
    ensures
        key is Ok <==> ed25519_point_decompresses(public_key@),
        key matches Ok(bytes) ==> bytes@ == public_key@,
{
    match ed25519_dalek::VerifyingKey::from_bytes(public_key) {
        Ok(key) => Ok(key.to_bytes()),
        Err(err) => Err(err.to_string()),
    }
}

/// An Ed25519 verifying key: 32 bytes that decompress to a curve point.
pub struct VerifyingKey {
    bytes: [u8; 32],
}

impl View for VerifyingKey {
    type V = Seq<u8>;

    /// The compressed point.
    closed spec fn view(&self) -> Seq<u8> {
        self.bytes@
    }
}

impl VerifyingKey {
    /// The key is a curve point in compressed form.
    pub open spec fn well_formed(&self) -> bool {
        &&& self@.len() == 32
        &&& ed25519_point_decompresses(self@)
    }

    /// The compressed point, as bytes.
    pub fn to_bytes(&self) -> (bytes: [u8; 32])
        ensures
            bytes@ == self@,
    {
        self.bytes
    }
}

#[derive(Debug, Clone, PartialEq, Eq)]
pub enum KeyError {
    /// A private key must be 32 bytes; this many were given.
    InvalidPrivateKeyLength(usize),
    /// The public key is not 32 bytes or not a curve point.
    InvalidPublicKey(String),
}

/// The 32 bytes of an Ed25519 secret key.
pub struct PrivateKeyBytes([u8; 32]);

impl View for PrivateKeyBytes {
    type V = Seq<u8>;

    closed spec fn view(&self) -> Seq<u8> {
        self.0@
    }
}

impl Clone for PrivateKeyBytes {
    fn clone(&self) -> (res: Self)
        ensures
            res@ == self@,
    {
        PrivateKeyBytes(self.0)
    }
}

impl PrivateKeyBytes {
    /// The key in `value`, which must be exactly 32 bytes.
    pub fn from_slice(value: &[u8]) -> (res: Result<Self, KeyError>)
        ensures
            value@.len() == 32 ==> (res matches Ok(key) && key@ == value@),
            value@.len() != 32 ==> res == Err::<Self, KeyError>(KeyError::InvalidPrivateKeyLength(value@.len() as usize)),
    {
        if value.len() != ED25519_PRIVATE_KEY_LEN {
            return Err(KeyError::InvalidPrivateKeyLength(value.len()));
        }
        let mut bytes = [0u8; 32];
        let mut i: usize = 0;
        while i < 32
            invariant
                i <= 32,
                value@.len() == 32,
                bytes@.len() == 32,
                forall|k: int| 0 <= k < i ==> bytes@[k] == value@[k],
            decreases 32 - i,
        {
            bytes[i] = value[i];
            i = i + 1;
        }
        assert(bytes@ =~= value@);
        Ok(PrivateKeyBytes(bytes))
    }

    /// The key bytes.
    pub fn expose(&self) -> (bytes: &[u8; 32])
        ensures
            bytes@ == self@,
    {
        &self.0
    }

    /// A copy of the key bytes.
    pub fn to_vec(&self) -> (bytes: Vec<u8>)
        ensures
            bytes@ == self@,
    {
        let mut bytes: Vec<u8> = Vec::new();
        let mut i: usize = 0;
        while i < 32
            invariant
                i <= 32,
                self@.len() == 32,
                bytes@ == self@.take(i as int),
            decreases 32 - i,
        {
            bytes.push(self.0[i]);
            assert(self@.take(i + 1) =~= self@.take(i as int).push(self@[i as int]));
            i = i + 1;
        }
        assert(self@.take(32) =~= self@);
        bytes
    }
}

/// A device's key pair, kept as bytes: the secret key and its public key.
pub struct DeviceKeypair {
    pub signing: PrivateKeyBytes,
    pub verifying: [u8; 32],
}

impl DeviceKeypair {
    /// The public half belongs to the secret half and is a curve point.
    pub open spec fn well_formed(&self) -> bool {
        &&& self.signing@.len() == 32
        &&& self.verifying@ == ed25519_public_key_of(self.signing@)
        &&& ed25519_point_decompresses(self.verifying@)
    }
}

/// A new key pair from the operating system's random source.
pub fn generate_device_keypair() -> (keypair: DeviceKeypair)
    ensures
        keypair.well_formed(),
{
    let secret = generate_secret_key();
    let verifying = derive_public_key(&secret);
    DeviceKeypair { signing: PrivateKeyBytes(secret), verifying }
}

/// The key pair whose secret key is `private_key` (32 bytes).
pub fn keypair_from_private_key(private_key: &[u8]) -> (res: Result<DeviceKeypair, KeyError>)
    ensures
        private_key@.len() == 32 ==> (res matches Ok(keypair) && keypair.well_formed()
            && keypair.signing@ == private_key@),
        private_key@.len() != 32 ==> res == Err::<DeviceKeypair, KeyError>(
            KeyError::InvalidPrivateKeyLength(private_key@.len() as usize),
        ),
{
    let private_key = PrivateKeyBytes::from_slice(private_key)?;
    let verifying = derive_public_key(private_key.expose());
    Ok(DeviceKeypair { signing: private_key, verifying })
}

/// The secret key of a pair.
pub fn serialize_private_key(keypair: &DeviceKeypair) -> (key: PrivateKeyBytes)
    ensures
        key@ == keypair.signing@,
{
    keypair.signing.clone()
}

/// The public key of a pair, as bytes.
pub fn serialize_public_key(keypair: &DeviceKeypair) -> (key: Vec<u8>)
    ensures
        key@ == keypair.verifying@,
{
    let mut key: Vec<u8> = Vec::new();
    let mut i: usize = 0;
    while i < 32
        invariant
            i <= 32,
            keypair.verifying@.len() == 32,
            key@ == keypair.verifying@.take(i as int),
        decreases 32 - i,
    {
        key.push(keypair.verifying[i]);
        assert(keypair.verifying@.take(i + 1) =~= keypair.verifying@.take(i as int).push(
            keypair.verifying@[i as int],
        ));
        i = i + 1;
    }
    assert(keypair.verifying@.take(32) =~= keypair.verifying@);
    key
}

/// The message of a public key of the wrong length.
pub open spec fn wrong_public_length_message(len: nat) -> Seq<char> {
    "expected 32 bytes, got "@ + decimal_chars(len)
}

/// The verifying key in `public_key`: it must be 32 bytes that decompress to
/// a curve point.
pub fn verifying_key_from_public_key(public_key: &[u8]) -> (res: Result<VerifyingKey, KeyError>)
    ensures
        public_key@.len() != 32 ==> (res matches Err(KeyError::InvalidPublicKey(message))
            && message@ == wrong_public_length_message(public_key@.len())),
        public_key@.len() == 32 ==> (res is Ok <==> ed25519_point_decompresses(public_key@)),
        res matches Ok(key) ==> key@ == public_key@ && key.well_formed(),
        public_key@.len() == 32 && !ed25519_point_decompresses(public_key@) ==> res matches Err(
            KeyError::InvalidPublicKey(_),
        ),
{
    if public_key.len() != ED25519_PUBLIC_KEY_LEN {
        let mut message = String::from_str("expected 32 bytes, got ");
        append_decimal(&mut message, public_key.len() as u64);
        return Err(KeyError::InvalidPublicKey(message));
    }
    let mut bytes = [0u8; 32];
    let mut i: usize = 0;
    while i < 32
        invariant
            i <= 32,
            public_key@.len() == 32,
            bytes@.len() == 32,
            forall|k: int| 0 <= k < i ==> bytes@[k] == public_key@[k],
        decreases 32 - i,
    {
        bytes[i] = public_key[i];
        i = i + 1;
    }
    assert(bytes@ =~= public_key@);
    match decode_verifying_key(&bytes) {
        Ok(decoded) => Ok(VerifyingKey { bytes: decoded }),
        Err(message) => Err(KeyError::InvalidPublicKey(message)),
    }
}

/// The public key that `keypair_from_private_key` restores from stored secret bytes.
pub open spec fn restored_public_key(private_key: Seq<u8>) -> Option<Seq<u8>> {
    if private_key.len() == 32 {
        Some(ed25519_public_key_of(private_key))
    } else {
        None
    }
}

/// Restoring a pair from its serialized secret key gives back its public key.
pub proof fn lemma_private_key_round_trip(keypair: DeviceKeypair)
    requires
        keypair.well_formed(),
    ensures
        restored_public_key(keypair.signing@) == Some(keypair.verifying@),
{
}

/// The public key of a pair is 32 bytes that decompress to a curve point,
/// so `verifying_key_from_public_key` accepts it.
pub proof fn lemma_public_key_is_accepted(keypair: DeviceKeypair)
    requires
        keypair.well_formed(),
    ensures
        keypair.verifying@.len() == ED25519_PUBLIC_KEY_LEN,
        ed25519_point_decompresses(keypair.verifying@),
{
}

} // verus!

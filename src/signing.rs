use vstd::prelude::*;

verus! {

/// The number of bytes in an Ed25519 public key.
pub const PUBLIC_KEY_LEN: usize = 32;

/// The number of bytes in an Ed25519 signature.
pub const SIGNATURE_LEN: usize = 64;

/// No PKCS#8 document shorter than this can hold both the 32-byte seed and
/// the 32-byte public key.
pub const MIN_PKCS8_LEN: usize = 64;

#[verifier::external_type_specification]
#[verifier::external_body]
pub struct ExEd25519KeyPair(ring::signature::Ed25519KeyPair);

#[verifier::external_type_specification]
#[verifier::external_body]
pub struct ExUnspecified(ring::error::Unspecified);

#[verifier::external_type_specification]
#[verifier::external_body]
pub struct ExKeyRejected(ring::error::KeyRejected);

/// Whether `Ed25519KeyPair::from_pkcs8` accepts the document `b`.
pub uninterp spec fn pkcs8_accepted(b: Seq<u8>) -> bool;

/// The public key of the key pair parsed from the PKCS#8 document `b`.
pub uninterp spec fn ed25519_public_key(b: Seq<u8>) -> Seq<u8>;

/// The signature of `msg` by the key pair parsed from the PKCS#8 document `b`.
pub uninterp spec fn ed25519_signature(b: Seq<u8>, msg: Seq<u8>) -> Seq<u8>;

/// Whether Ed25519 verification accepts `sig` for `msg` under `public_key`.
pub uninterp spec fn ed25519_accepts(public_key: Seq<u8>, msg: Seq<u8>, sig: Seq<u8>) -> bool;

/// Relies on `Ed25519KeyPair::generate_pkcs8` with `SystemRandom`: on success it
/// returns a v2 PKCS#8 document wrapping a fresh seed and the public key
/// computed from it, which `Ed25519KeyPair::from_pkcs8` accepts.
#[verifier::external_body]
fn ring_generate_pkcs8() -> (r: Result<Vec<u8>, ring::error::Unspecified>)
    ensures
        r is Ok ==> pkcs8_accepted(r->Ok_0@),
{
    let rng = ring::rand::SystemRandom::new();
    match ring::signature::Ed25519KeyPair::generate_pkcs8(&rng) {
        Ok(document) => Ok(document.as_ref().to_vec()),
        Err(e) => Err(e),
    }
}

/// Relies on `Ed25519KeyPair::from_pkcs8`: a deterministic parse of `b`, which
/// must hold a 32-byte seed and a 32-byte public key.
#[verifier::external_body]
fn ring_from_pkcs8(b: &[u8]) -> (r: Result<ring::signature::Ed25519KeyPair, ring::error::KeyRejected>)
    ensures
        r is Ok <==> pkcs8_accepted(b@),
        b@.len() < MIN_PKCS8_LEN ==> r is Err,
{
    ring::signature::Ed25519KeyPair::from_pkcs8(b)
}

/// Relies on `Ed25519KeyPair::public_key`: the 32 public-key bytes of the key
/// pair, which `from_pkcs8` read from `key`'s document.
#[verifier::external_body]
fn ring_public_key(key: &KeyPair) -> (r: Vec<u8>)
    ensures
        r@ == ed25519_public_key(key.encoding()),
        r@.len() == PUBLIC_KEY_LEN,
{
    ring::signature::KeyPair::public_key(&key.inner).as_ref().to_vec()
}

/// Relies on `Ed25519KeyPair::sign`: deterministic Ed25519 signing, which
/// yields 64 bytes.
#[verifier::external_body]
fn ring_sign(key: &KeyPair, msg: &[u8]) -> (r: Vec<u8>)
    ensures
        r@ == ed25519_signature(key.encoding(), msg@),
        r@.len() == SIGNATURE_LEN,
{
    key.inner.sign(msg).as_ref().to_vec()
}

/// Relies on `UnparsedPublicKey::verify` with `ED25519`: a pure check, which
/// rejects a public key that is not 32 bytes and a signature that is not 64.
#[verifier::external_body]
fn ring_verify(public_key: &[u8], msg: &[u8], sig: &[u8]) -> (r: Result<(), ring::error::Unspecified>)
    ensures
        r is Ok <==> ed25519_accepts(public_key@, msg@, sig@),
        public_key@.len() != PUBLIC_KEY_LEN || sig@.len() != SIGNATURE_LEN ==> r is Err,
{
    ring::signature::UnparsedPublicKey::new(&ring::signature::ED25519, public_key).verify(msg, sig)
}

/// An Ed25519 key pair, together with the PKCS#8 document it was parsed from.
pub struct KeyPair {
    inner: ring::signature::Ed25519KeyPair,
    encoding: Ghost<Seq<u8>>,
}

impl KeyPair {
    /// The PKCS#8 document this key pair was parsed from.
    pub closed spec fn encoding(&self) -> Seq<u8> {
        self.encoding@
    }

    /// Parses a PKCS#8 v2 Ed25519 private-key document.
    pub fn from_pkcs8(b: &[u8]) -> (r: Option<KeyPair>)
        ensures
            r is Some <==> pkcs8_accepted(b@),
            r is Some ==> r->Some_0.encoding() == b@,
            b@.len() < MIN_PKCS8_LEN ==> r is None,
    {
        match ring_from_pkcs8(b) {
            Ok(inner) => Some(KeyPair { inner, encoding: Ghost(b@) }),
            Err(_) => None,
        }
    }

    /// The 32-byte public key, safe to share.
    pub fn public_key(&self) -> (r: Vec<u8>)
        ensures
            r@ == ed25519_public_key(self.encoding()),
            r@.len() == PUBLIC_KEY_LEN,
    {
        ring_public_key(self)
    }
}

/// A signature, as the bytes that a signer produced or a peer sent.
pub struct Signature {
    bytes: Vec<u8>,
}

impl View for Signature {
    type V = Seq<u8>;

    closed spec fn view(&self) -> Seq<u8> {
        self.bytes@
    }
}

impl Signature {
    /// A signature holding `bytes`, of any length.
    pub fn from_bytes(bytes: Vec<u8>) -> (r: Signature)
        ensures
            r@ == bytes@,
    {
        Signature { bytes }
    }

    /// The signature's bytes.
    pub fn as_bytes(&self) -> (r: &[u8])
        ensures
            r@ == self@,
    {
        self.bytes.as_slice()
    }
}

/// Why key generation failed.
#[derive(Debug, Clone, Copy, PartialEq, Eq, Structural)]
pub enum KeyGenError {
    /// The platform's secure random source could not supply a seed.
    RandomnessUnavailable,
}

/// Generates a fresh key pair from the platform's secure random source, and
/// returns it with its PKCS#8 document, the form in which it is persisted.
pub fn generate_keys() -> (r: Result<(KeyPair, Vec<u8>), KeyGenError>)
    ensures
        r is Ok ==> pkcs8_accepted(r->Ok_0.1@) && r->Ok_0.0.encoding() == r->Ok_0.1@,
        r is Err ==> r == Err::<(KeyPair, Vec<u8>), KeyGenError>(KeyGenError::RandomnessUnavailable),
{
    match ring_generate_pkcs8() {
        Err(_) => Err(KeyGenError::RandomnessUnavailable),
        Ok(document) => {
            match KeyPair::from_pkcs8(document.as_slice()) {
                Some(key_pair) => Ok((key_pair, document)),
                None => {
                    proof {
                        assert(false);
                    }
                    Err(KeyGenError::RandomnessUnavailable)
                },
            }
        },
    }
}

/// Signs `data` with `key_pair`.
pub fn sign_data(key_pair: &KeyPair, data: &[u8]) -> (r: Signature)
    ensures
        r@ == ed25519_signature(key_pair.encoding(), data@),
        r@.len() == SIGNATURE_LEN,
{
    Signature { bytes: ring_sign(key_pair, data) }
}

/// Whether `signature` is a valid Ed25519 signature of `data` under
/// `public_key_bytes`. Malformed keys and signatures give `false`.
pub fn verify_data(public_key_bytes: &[u8], data: &[u8], signature: Signature) -> (r: bool)
    ensures
        r == ed25519_accepts(public_key_bytes@, data@, signature@),
        public_key_bytes@.len() != PUBLIC_KEY_LEN ==> !r,
        signature@.len() != SIGNATURE_LEN ==> !r,
{
    match ring_verify(public_key_bytes, data, signature.bytes.as_slice()) {
        Ok(()) => true,
        Err(_) => false,
    }
}

} // verus!

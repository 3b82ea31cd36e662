use crate::cliopts::TextSignFormat;
use crate::codec::{base64_url, base64_url_decoded, decode_signature, encode_signature};
use vstd::prelude::*;

verus! {

/// Length in bytes of a keyed-hash key and of the digest it produces.
pub const MAC_LEN: usize = 32;

/// Length in bytes of an Ed25519 seed and of an Ed25519 public key.
pub const KEY_LEN: usize = 32;

/// Length in bytes of an Ed25519 signature.
pub const SIGNATURE_LEN: usize = 64;

/// The BLAKE3 keyed hash of `msg` under `key`.
pub uninterp spec fn blake3_keyed(key: Seq<u8>, msg: Seq<u8>) -> [u8; 32];

/// Relies on `blake3::keyed_hash`: the 32-byte digest depends on the key and
/// the input alone.
#[verifier::external_body]
fn keyed_hash(key: &[u8; 32], msg: &[u8]) -> (r: [u8; 32])
    ensures
        r == blake3_keyed(key@, msg@),
{
    *blake3::keyed_hash(key, msg).as_bytes()
}

/// The Ed25519 signature of `msg` by the key pair expanded from the 32-byte `seed`.
pub uninterp spec fn ed25519_signature(seed: Seq<u8>, msg: Seq<u8>) -> [u8; 64];

/// Whether 32 bytes are the compressed form of a point of the curve, that is
/// an Ed25519 public key.
pub uninterp spec fn ed25519_point_valid(public: Seq<u8>) -> bool;

/// Whether Ed25519 verification under the public key accepts `sig` for `msg`.
pub uninterp spec fn ed25519_accepts(public: Seq<u8>, msg: Seq<u8>, sig: Seq<u8>) -> bool;

/// Relies on `Signer::sign` of `ed25519_dalek::SigningKey`, for the key that
/// `SigningKey::from_bytes` expands from the seed: signing is deterministic,
/// so the 64 bytes depend on seed and message alone.
#[verifier::external_body]
fn ed25519_sign(seed: &[u8; 32], msg: &[u8]) -> (r: [u8; 64])
    ensures
        r == ed25519_signature(seed@, msg@),
{
    let key = ed25519_dalek::SigningKey::from_bytes(seed);
    ed25519_dalek::Signer::sign(&key, msg).to_bytes()
}

/// Relies on `ed25519_dalek::VerifyingKey::from_bytes`, which succeeds exactly
/// when the bytes decompress to a curve point.
#[verifier::external_body]
fn is_public_key(public: &[u8; 32]) -> (r: bool)
    ensures
        r == ed25519_point_valid(public@),
{
    ed25519_dalek::VerifyingKey::from_bytes(public).is_ok()
}

/// Relies on `Verifier::verify` of `ed25519_dalek::VerifyingKey`, for the key
/// read from the bytes (which `requires` makes a curve point, so that
/// `VerifyingKey::from_bytes` succeeds) and the signature read from its 64
/// bytes: whether it accepts depends on key, message and signature alone.
#[verifier::external_body]
fn ed25519_verify(public: &[u8; 32], msg: &[u8], sig: &[u8; 64]) -> (r: bool)
    requires
        ed25519_point_valid(public@),
    ensures
        r == ed25519_accepts(public@, msg@, sig@),
{
    let key = ed25519_dalek::VerifyingKey::from_bytes(public).expect("a curve point");
    let sig = ed25519_dalek::Signature::from_bytes(sig);
    ed25519_dalek::Verifier::verify(&key, msg, &sig).is_ok()
}

/// Why signing or verifying could not run to a result.
#[derive(Debug, Clone, Copy, PartialEq, Eq, Structural)]
pub enum TextSignError {
    /// A keyed-hash key holds fewer than 32 bytes.
    KeyTooShort { found: usize },
    /// An Ed25519 key does not hold exactly 32 bytes.
    KeySize { found: usize },
    /// The 32 bytes of a public key are not a point of the curve.
    InvalidVerifyingKey,
    /// The signature text is not URL-safe unpadded base64.
    SignatureEncoding,
    /// The decoded signature does not have the length of its scheme.
    SignatureLength { found: usize },
}

impl TextSignError {
    /// A short description of the error.
    pub fn message(&self) -> &'static str {
        match self {
            TextSignError::KeyTooShort { .. } => "key size: a keyed-hash key needs at least 32 bytes",
            TextSignError::KeySize { .. } => "key size: an Ed25519 key must be exactly 32 bytes",
            TextSignError::InvalidVerifyingKey => "the public key is not a valid Ed25519 point",
            TextSignError::SignatureEncoding => "the signature is not URL-safe base64 without padding",
            TextSignError::SignatureLength { .. } => "the signature does not have the length of its scheme",
        }
    }
}

/// The key a keyed-hash signer uses for the given key material: its first 32 bytes.
pub open spec fn mac_key_of(material: Seq<u8>) -> Result<Seq<u8>, TextSignError> {
    if material.len() < 32 {
        Err(TextSignError::KeyTooShort { found: material.len() as usize })
    } else {
        Ok(material.subrange(0, 32))
    }
}

/// The Ed25519 key held in key material: all of it, which must be 32 bytes.
pub open spec fn ed25519_key_of(material: Seq<u8>) -> Result<Seq<u8>, TextSignError> {
    if material.len() != 32 {
        Err(TextSignError::KeySize { found: material.len() as usize })
    } else {
        Ok(material)
    }
}

/// Copies the first 32 bytes of `src` into an array.
fn first_32(src: &[u8]) -> (r: [u8; 32])
    requires
        src@.len() >= 32,
    ensures
        r@ == src@.subrange(0, 32),
{
    let mut r = [0u8; 32];
    let mut i: usize = 0;
    while i < 32
        invariant
            0 <= i <= 32,
            src@.len() >= 32,
            forall|j: int| 0 <= j < i ==> r@[j] == src@[j],
        decreases 32 - i,
    {
        r[i] = src[i];
        i = i + 1;
    }
    assert(r@ =~= src@.subrange(0, 32));
    r
}

/// Copies a 64-byte slice into an array.
fn to_64(src: &[u8]) -> (r: [u8; 64])
    requires
        src@.len() == 64,
    ensures
        r@ == src@,
{
    let mut r = [0u8; 64];
    let mut i: usize = 0;
    while i < 64
        invariant
            0 <= i <= 64,
            src@.len() == 64,
            forall|j: int| 0 <= j < i ==> r@[j] == src@[j],
        decreases 64 - i,
    {
        r[i] = src[i];
        i = i + 1;
    }
    assert(r@ =~= src@);
    r
}

/// Reads an Ed25519 key (a seed or a public key) from key material, which
/// must hold exactly 32 bytes.
pub fn load_ed25519_key(material: &[u8]) -> (r: Result<[u8; 32], TextSignError>)
    ensures
        match ed25519_key_of(material@) {
            Ok(k) => r matches Ok(a) && a@ == k,
            Err(e) => r == Err::<[u8; 32], TextSignError>(e),
        },
{
    if material.len() != KEY_LEN {
        Err(TextSignError::KeySize { found: material.len() })
    } else {
        let k = first_32(material);
        assert(material@.subrange(0, 32) =~= material@);
        Ok(k)
    }
}

/// Reads a keyed-hash key from key material: the first 32 bytes are the key,
/// any bytes after them are ignored.
pub fn load_mac_key(material: &[u8]) -> (r: Result<[u8; 32], TextSignError>)
    ensures
        match mac_key_of(material@) {
            Ok(k) => r matches Ok(a) && a@ == k,
            Err(e) => r == Err::<[u8; 32], TextSignError>(e),
        },
{
    if material.len() < MAC_LEN {
        Err(TextSignError::KeyTooShort { found: material.len() })
    } else {
        Ok(first_32(material))
    }
}

/// Signer and verifier by BLAKE3 keyed hash: the digest is the signature.
pub struct Blake3 {
    pub key: [u8; 32],
}

impl Blake3 {
    /// A signer for the given key.
    pub fn new(key: [u8; 32]) -> (r: Self)
        ensures
            r.key == key,
    {
        Self { key }
    }

    /// A signer for the first 32 bytes of `key`; fails when it has fewer.
    pub fn try_new(key: &[u8]) -> (r: Result<Self, TextSignError>)
        ensures
            match mac_key_of(key@) {
                Ok(k) => r matches Ok(s) && s.key@ == k,
                Err(e) => r matches Err(f) && f == e,
            },
    {
        match load_mac_key(key) {
            Ok(k) => Ok(Self::new(k)),
            Err(e) => Err(e),
        }
    }

    /// The signature of `msg`: its keyed hash.
    pub fn sign(&self, msg: &[u8]) -> (r: Vec<u8>)
        ensures
            r@ == blake3_keyed(self.key@, msg@)@,
    {
        let digest = keyed_hash(&self.key, msg);
        let mut out: Vec<u8> = Vec::with_capacity(MAC_LEN);
        let mut i: usize = 0;
        while i < 32
            invariant
                0 <= i <= 32,
                out@ == digest@.subrange(0, i as int),
            decreases 32 - i,
        {
            out.push(digest[i]);
            i = i + 1;
            assert(out@ =~= digest@.subrange(0, i as int));
        }
        assert(out@ =~= digest@);
        out
    }

    /// Whether `sig` is the keyed hash of `msg`, compared over its whole content.
    pub fn verify(&self, msg: &[u8], sig: &[u8]) -> (r: bool)
        ensures
            r == (blake3_keyed(self.key@, msg@)@ == sig@),
    {
        let digest = keyed_hash(&self.key, msg);
        bytes_equal(&digest, sig)
    }
}

/// Ed25519 signer, holding the 32-byte seed its key pair is expanded from.
pub struct Ed25519Signer {
    pub key: [u8; 32],
}

impl Ed25519Signer {
    /// A signer for the given seed.
    pub fn new(key: [u8; 32]) -> (r: Self)
        ensures
            r.key == key,
    {
        Self { key }
    }

    /// The 64-byte signature of `msg`.
    pub fn sign(&self, msg: &[u8]) -> (r: Vec<u8>)
        ensures
            r@ == ed25519_signature(self.key@, msg@)@,
    {
        let sig = ed25519_sign(&self.key, msg);
        let mut out: Vec<u8> = Vec::with_capacity(SIGNATURE_LEN);
        let mut i: usize = 0;
        while i < 64
            invariant
                0 <= i <= 64,
                out@ == sig@.subrange(0, i as int),
            decreases 64 - i,
        {
            out.push(sig[i]);
            i = i + 1;
            assert(out@ =~= sig@.subrange(0, i as int));
        }
        assert(out@ =~= sig@);
        out
    }
}

/// Ed25519 verifier, holding a public key that is a point of the curve.
pub struct Ed25519Verifier {
    key: [u8; 32],
}

impl Ed25519Verifier {
    #[verifier::type_invariant]
    spec fn on_curve(&self) -> bool {
        ed25519_point_valid(self.key@)
    }

    /// The public key's 32 bytes.
    pub closed spec fn public_key(&self) -> Seq<u8> {
        self.key@
    }

    /// A verifier for the public key; fails when the bytes are not a curve point.
    pub fn try_new(key: [u8; 32]) -> (r: Result<Self, TextSignError>)
        ensures
            ed25519_point_valid(key@) ==> (r matches Ok(v) && v.public_key() == key@),
            !ed25519_point_valid(key@) ==> r == Err::<Self, TextSignError>(
                TextSignError::InvalidVerifyingKey,
            ),
    {
        if is_public_key(&key) {
            Ok(Self { key })
        } else {
            Err(TextSignError::InvalidVerifyingKey)
        }
    }

    /// Whether `sig` is a valid signature of `msg`; a signature that is not
    /// 64 bytes long is an error, not a `false`.
    pub fn verify(&self, msg: &[u8], sig: &[u8]) -> (r: Result<bool, TextSignError>)
        ensures
            sig@.len() != 64 ==> r == Err::<bool, TextSignError>(
                TextSignError::SignatureLength { found: sig@.len() as usize },
            ),
            sig@.len() == 64 ==> r == Ok::<bool, TextSignError>(
                ed25519_accepts(self.public_key(), msg@, sig@),
            ),
    {
        proof {
            use_type_invariant(self);
        }
        if sig.len() != SIGNATURE_LEN {
            return Err(TextSignError::SignatureLength { found: sig.len() });
        }
        let sig = to_64(sig);
        Ok(ed25519_verify(&self.key, msg, &sig))
    }
}

/// The raw signature of `msg` under `format` with the given key material.
pub open spec fn signature_of(format: TextSignFormat, key: Seq<u8>, msg: Seq<u8>) -> Result<
    Seq<u8>,
    TextSignError,
> {
    match format {
        TextSignFormat::Blake3 => match mac_key_of(key) {
            Ok(k) => Ok(blake3_keyed(k, msg)@),
            Err(e) => Err(e),
        },
        TextSignFormat::Ed25519 => match ed25519_key_of(key) {
            Ok(k) => Ok(ed25519_signature(k, msg)@),
            Err(e) => Err(e),
        },
    }
}

/// The outcome of checking the raw signature `sig` of `msg` under `format`
/// with the given key material (the shared key, or the public key).
pub open spec fn verdict_of(
    format: TextSignFormat,
    key: Seq<u8>,
    msg: Seq<u8>,
    sig: Seq<u8>,
) -> Result<bool, TextSignError> {
    match format {
        TextSignFormat::Blake3 => match mac_key_of(key) {
            Ok(k) => Ok(blake3_keyed(k, msg)@ == sig),
            Err(e) => Err(e),
        },
        TextSignFormat::Ed25519 => match ed25519_key_of(key) {
            Ok(k) => if !ed25519_point_valid(k) {
                Err(TextSignError::InvalidVerifyingKey)
            } else if sig.len() != 64 {
                Err(TextSignError::SignatureLength { found: sig.len() as usize })
            } else {
                Ok(ed25519_accepts(k, msg, sig))
            },
            Err(e) => Err(e),
        },
    }
}

/// The raw signature of `msg` under `format`, with the key read from `key`.
pub fn sign_bytes(format: TextSignFormat, key: &[u8], msg: &[u8]) -> (r: Result<
    Vec<u8>,
    TextSignError,
>)
    ensures
        match signature_of(format, key@, msg@) {
            Ok(s) => r matches Ok(v) && v@ == s,
            Err(e) => r matches Err(f) && f == e,
        },
{
    match format {
        TextSignFormat::Blake3 => match Blake3::try_new(key) {
            Ok(signer) => Ok(signer.sign(msg)),
            Err(e) => Err(e),
        },
        TextSignFormat::Ed25519 => match load_ed25519_key(key) {
            Ok(seed) => Ok(Ed25519Signer::new(seed).sign(msg)),
            Err(e) => Err(e),
        },
    }
}

/// Checks the raw signature `sig` of `msg` under `format`, with the key read
/// from `key`. A mismatch is `Ok(false)`; errors are kept for bad keys and for
/// a signature of the wrong length.
pub fn verify_bytes(format: TextSignFormat, key: &[u8], msg: &[u8], sig: &[u8]) -> (r: Result<
    bool,
    TextSignError,
>)
    ensures
        r == verdict_of(format, key@, msg@, sig@),
{
    match format {
        TextSignFormat::Blake3 => match Blake3::try_new(key) {
            Ok(verifier) => Ok(verifier.verify(msg, sig)),
            Err(e) => Err(e),
        },
        TextSignFormat::Ed25519 => match load_ed25519_key(key) {
            Ok(public) => match Ed25519Verifier::try_new(public) {
                Ok(verifier) => verifier.verify(msg, sig),
                Err(e) => Err(e),
            },
            Err(e) => Err(e),
        },
    }
}

/// Signs `msg` under `format` with the key read from `key`, and gives the
/// signature as URL-safe unpadded base64 text.
pub fn sign_text(format: TextSignFormat, key: &[u8], msg: &[u8]) -> (r: Result<
    String,
    TextSignError,
>)
    ensures
        match signature_of(format, key@, msg@) {
            Ok(s) => r matches Ok(t) && t@ == base64_url(s) && base64_url_decoded(t@) == Some(s),
            Err(e) => r matches Err(f) && f == e,
        },
{
    match sign_bytes(format, key, msg) {
        Ok(sig) => Ok(encode_signature(&sig)),
        Err(e) => Err(e),
    }
}

/// Checks the signature carried by the base64 text `signature` for `msg`
/// under `format`, with the key read from `key`. Text that is not URL-safe
/// unpadded base64 is an error; otherwise the outcome is that of the decoded
/// bytes.
pub fn verify_text(format: TextSignFormat, key: &[u8], msg: &[u8], signature: &str) -> (r: Result<
    bool,
    TextSignError,
>)
    ensures
        match base64_url_decoded(signature@) {
            Some(sig) => r == verdict_of(format, key@, msg@, sig),
            None => r == Err::<bool, TextSignError>(TextSignError::SignatureEncoding),
        },
{
    match decode_signature(signature) {
        Some(sig) => verify_bytes(format, key, msg, &sig),
        None => Err(TextSignError::SignatureEncoding),
    }
}

/// A keyed-hash signature made with a 32-byte key verifies under the same key
/// for the same message.
pub proof fn lemma_mac_sign_then_verify(key: Seq<u8>, msg: Seq<u8>)
    requires
        key.len() == 32,
    ensures
        signature_of(TextSignFormat::Blake3, key, msg) is Ok,
        verdict_of(TextSignFormat::Blake3, key, msg, signature_of(TextSignFormat::Blake3, key, msg)->Ok_0)
            == Ok::<bool, TextSignError>(true),
{
}

/// A signature made under one format never verifies under the other: an
/// Ed25519 signature is rejected by keyed-hash verification, and a keyed-hash
/// signature makes Ed25519 verification fail with an error, whatever the keys.
pub proof fn lemma_format_swap_never_verifies(sign_key: Seq<u8>, verify_key: Seq<u8>, msg: Seq<u8>)
    ensures
        signature_of(TextSignFormat::Ed25519, sign_key, msg) matches Ok(sig)
            ==> verdict_of(TextSignFormat::Blake3, verify_key, msg, sig) != Ok::<bool, TextSignError>(true),
        signature_of(TextSignFormat::Blake3, sign_key, msg) matches Ok(sig)
            ==> verdict_of(TextSignFormat::Ed25519, verify_key, msg, sig) is Err,
{
    if sign_key.len() == 32 {
        assert(ed25519_signature(sign_key, msg)@.len() == 64);
    }
    if sign_key.len() >= 32 {
        assert(blake3_keyed(sign_key.subrange(0, 32), msg)@.len() == 32);
    }
    if verify_key.len() >= 32 {
        assert(blake3_keyed(verify_key.subrange(0, 32), msg)@.len() == 32);
    }
}

/// Whether two byte strings are equal, looking at every byte.
pub fn bytes_equal(a: &[u8], b: &[u8]) -> (r: bool)
    ensures
        r == (a@ == b@),
{
    if a.len() != b.len() {
        return false;
    }
    let mut diff: bool = false;
    let mut i: usize = 0;
    while i < a.len()
        invariant
            0 <= i <= a@.len(),
            a@.len() == b@.len(),
            diff == !(a@.subrange(0, i as int) =~= b@.subrange(0, i as int)),
        decreases a@.len() - i,
    {
        if a[i] != b[i] {
            diff = true;
        }
        proof {
            assert(a@.subrange(0, i + 1) == a@.subrange(0, i as int).push(a@[i as int]));
            assert(b@.subrange(0, i + 1) == b@.subrange(0, i as int).push(b@[i as int]));
            if a@.subrange(0, i as int) =~= b@.subrange(0, i as int) && a@[i as int] == b@[i as int] {
                assert(a@.subrange(0, i + 1) =~= b@.subrange(0, i + 1));
            }
            if !(a@.subrange(0, i + 1) =~= b@.subrange(0, i + 1)) {
            } else {
                assert(a@.subrange(0, i + 1)[i as int] == b@.subrange(0, i + 1)[i as int]);
                assert forall|j: int| 0 <= j < i implies a@.subrange(0, i as int)[j] == b@.subrange(0, i as int)[j] by {
                    assert(a@.subrange(0, i + 1)[j] == b@.subrange(0, i + 1)[j]);
                }
            }
        }
        i = i + 1;
    }
    assert(a@.subrange(0, a@.len() as int) =~= a@);
    assert(b@.subrange(0, b@.len() as int) =~= b@);
    !diff
}

} // verus!

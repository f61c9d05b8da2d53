use vstd::prelude::*;
use vstd::arithmetic::power2::pow2;
use vstd::slice::{slice_subrange, slice_to_vec};

use crate::error::SignerError;

verus! {

#[verifier::external_type_specification]
#[verifier::external_body]
pub struct ExSignatureError(k256::ecdsa::Error);

#[verifier::external_type_specification]
#[verifier::external_body]
pub struct ExInstant(std::time::Instant);

/// The value of a byte string read as a big-endian number.
pub open spec fn be_value(b: Seq<u8>) -> nat
    decreases b.len(),
{
    if b.len() == 0 {
        0
    } else {
        (be_value(b.drop_last()) * 256 + b.last()) as nat
    }
}

/// The order n of the secp256k1 group.
pub open spec fn curve_order() -> nat {
    (0xFFFFFFFFFFFFFFFFFFFFFFFFFFFFFFFE * pow2(128) + 0xBAAEDCE6AF48A03BBFD25E8CD0364141) as nat
}

/// A secp256k1 secret scalar: 32 big-endian bytes of a value in `1..n`.
pub open spec fn valid_scalar(b: Seq<u8>) -> bool {
    &&& b.len() == 32
    &&& 0 < be_value(b) < curve_order()
}

/// The uncompressed SEC1 encoding of the public point of a secret scalar.
pub uninterp spec fn public_point_of(scalar: Seq<u8>) -> Seq<u8>;

/// The recoverable signature of a 32-byte digest under a secret scalar:
/// r (32 bytes), s (32 bytes), then the recovery id; `None` where the signing
/// primitive refuses the pair.
pub uninterp spec fn recoverable_signature_of(scalar: Seq<u8>, digest: Seq<u8>) -> Option<Seq<u8>>;

/// Relies on `SigningKey::random` over the operating system's generator, which
/// draws a non-zero scalar below n, and on `SigningKey::to_bytes`, which gives
/// that scalar as 32 big-endian bytes.
#[verifier::external_body]
fn random_scalar() -> (r: Vec<u8>)
    ensures
        valid_scalar(r@),
{
    let mut rng = k256::elliptic_curve::rand_core::OsRng;
    k256::ecdsa::SigningKey::random(&mut rng).to_bytes().to_vec()
}

/// Relies on `SigningKey::from_slice`, which on 32 bytes accepts exactly the
/// big-endian scalars in `1..n`, and on `VerifyingKey::to_encoded_point(false)`: 65 bytes, the tag 4
/// followed by the x and y coordinates.
#[verifier::external_body]
fn derive_public_point(scalar: &[u8]) -> (r: Result<Vec<u8>, k256::ecdsa::Error>)
    requires
        scalar@.len() == 32,
    ensures
        r is Ok <==> valid_scalar(scalar@),
        r matches Ok(p) ==> p@ == public_point_of(scalar@) && p@.len() == 65 && p@[0] == 4,
{
    let key = k256::ecdsa::SigningKey::from_slice(scalar)?;
    Ok(key.verifying_key().to_encoded_point(false).as_bytes().to_vec())
}

/// Relies on `SigningKey::from_slice` (as above) and on
/// `SigningKey::sign_prehash_recoverable`: ECDSA over the digest as
/// given, with the nonce derived by RFC 6979 from key and digest alone, and s
/// normalised to the lower half with the recovery id adjusted to match. It
/// fails only where r or s comes out zero, so whether it fails depends on key
/// and digest alone. `Signature::to_bytes` gives r then s, each a non-zero
/// scalar below n in 32 big-endian bytes, and the recovery id (at most 3)
/// follows them.
#[verifier::external_body]
fn sign_recoverable(scalar: &[u8], digest: &[u8]) -> (r: Result<Vec<u8>, k256::ecdsa::Error>)
    requires
        valid_scalar(scalar@),
        digest@.len() == 32,
    ensures
        r is Ok <==> recoverable_signature_of(scalar@, digest@) is Some,
        r matches Ok(b) ==> {
            &&& recoverable_signature_of(scalar@, digest@) == Some(b@)
            &&& b@.len() == 65
            &&& b@[64] <= 3
            &&& 0 < be_value(b@.subrange(0, 32)) < curve_order()
            &&& 0 < be_value(b@.subrange(32, 64)) < curve_order()
        },
{
    let key = k256::ecdsa::SigningKey::from_slice(scalar)?;
    let (sig, id) = key.sign_prehash_recoverable(digest)?;
    let mut out = sig.to_bytes().to_vec();
    out.push(id.to_byte());
    Ok(out)
}

/// Relies on `Instant::now`: a reading of the monotonic clock.
#[verifier::external_body]
fn clock_now() -> (r: std::time::Instant) {
    std::time::Instant::now()
}

/// Relies on `Instant::elapsed`: the time since `start` in nanoseconds, when
/// that fits in a `u64`.
#[verifier::external_body]
fn nanos_since(start: &std::time::Instant) -> (r: Option<u64>) {
    u64::try_from(start.elapsed().as_nanos()).ok()
}

/// The outcome of signing one digest.
pub struct SignatureResult {
    /// r followed by s, 64 bytes.
    pub signature: Vec<u8>,
    /// The r component, 32 bytes.
    pub r: Vec<u8>,
    /// The s component, 32 bytes.
    pub s: Vec<u8>,
    /// The recovery id offset by 27, as legacy Ethereum transactions carry it:
    /// 27 or 28 by the parity of R's y coordinate, plus 2 in the case, of
    /// negligible probability, where R's x coordinate exceeds n.
    pub v: u8,
    /// Time spent in the signing primitive, in nanoseconds.
    pub latency_nanos: u64,
}

/// Whether `res` holds the signature of `digest` under `scalar`, split into
/// its parts.
pub open spec fn signs(res: SignatureResult, scalar: Seq<u8>, digest: Seq<u8>) -> bool {
    match recoverable_signature_of(scalar, digest) {
        Some(full) => {
            &&& res.signature@ == full.subrange(0, 64)
            &&& res.r@ == full.subrange(0, 32)
            &&& res.s@ == full.subrange(32, 64)
            &&& res.v == 27 + full[64]
        },
        None => false,
    }
}

/// Whether `r` is what signing `digest` under `scalar` gives: a length error
/// for a digest that is not 32 bytes, else the split signature where the
/// primitive accepts the pair and `SigningFailed` where it refuses it.
pub open spec fn sign_outcome(
    scalar: Seq<u8>,
    digest: Seq<u8>,
    r: Result<SignatureResult, SignerError>,
) -> bool {
    if digest.len() != 32 {
        r == Err::<SignatureResult, SignerError>(
            SignerError::InvalidDigestLength { expected: 32, actual: digest.len() as usize },
        )
    } else {
        match r {
            Ok(res) => signs(res, scalar, digest),
            Err(e) => e == SignerError::SigningFailed && recoverable_signature_of(
                scalar,
                digest,
            ) is None,
        }
    }
}

/// A secp256k1 signing key. Its scalar is never handed out; only the public
/// point derived from it is.
pub struct ProductionSigner {
    scalar: Vec<u8>,
    point: Vec<u8>,
}

impl View for ProductionSigner {
    type V = Seq<u8>;

    /// The secret scalar.
    closed spec fn view(&self) -> Seq<u8> {
        self.scalar@
    }
}

impl ProductionSigner {
    /// The scalar is valid and the stored point is the one it derives.
    pub closed spec fn wf(&self) -> bool {
        &&& valid_scalar(self.scalar@)
        &&& self.point@ == public_point_of(self.scalar@)
        &&& self.point@.len() == 65
        &&& self.point@[0] == 4
    }

    /// A well-formed key holds a valid scalar, and its public point is 65
    /// bytes that start with the uncompressed tag 4.
    pub proof fn well_formed_facts(&self)
        requires
            self.wf(),
        ensures
            valid_scalar(self@),
            public_point_of(self@).len() == 65,
            public_point_of(self@)[0] == 4,
    {
    }

    /// A key with a fresh random scalar.
    pub fn new() -> (r: Self)
        ensures
            r.wf(),
            valid_scalar(r@),
    {
        let scalar = random_scalar();
        let point = derive_public_point(scalar.as_slice()).unwrap();
        ProductionSigner { scalar, point }
    }

    /// A key from its scalar as 32 big-endian bytes.
    pub fn from_bytes(key_bytes: &[u8]) -> (r: Result<Self, SignerError>)
        ensures
            r is Ok <==> valid_scalar(key_bytes@),
            r matches Ok(k) ==> k.wf() && k@ == key_bytes@,
            r is Err ==> r == Err::<Self, SignerError>(SignerError::InvalidKeyMaterial),
    {
        if key_bytes.len() != 32 {
            return Err(SignerError::InvalidKeyMaterial);
        }
        match derive_public_point(key_bytes) {
            Ok(point) => Ok(ProductionSigner { scalar: slice_to_vec(key_bytes), point }),
            Err(_) => Err(SignerError::InvalidKeyMaterial),
        }
    }

    /// The uncompressed encoding of the public point.
    pub fn public_key(&self) -> (r: Vec<u8>)
        requires
            self.wf(),
        ensures
            r@ == public_point_of(self@),
            r@.len() == 65,
            r@[0] == 4,
    {
        let r = self.point.clone();
        assert(r@ =~= self.point@);
        r
    }

    /// Signs a 32-byte digest.
    pub fn sign(&self, digest: &[u8]) -> (r: Result<SignatureResult, SignerError>)
        requires
            self.wf(),
        ensures
            digest@.len() != 32 ==> r == Err::<SignatureResult, SignerError>(
                SignerError::InvalidDigestLength { expected: 32, actual: digest@.len() as usize },
            ),
            digest@.len() == 32 ==> r is Ok || r == Err::<SignatureResult, SignerError>(
                SignerError::SigningFailed,
            ),
            digest@.len() == 32 ==> (r is Ok <==> recoverable_signature_of(self@, digest@) is Some),
            sign_outcome(self@, digest@, r),
            r matches Ok(res) ==> {
                &&& signs(res, self@, digest@)
                &&& 0 < be_value(res.r@) < curve_order()
                &&& 0 < be_value(res.s@) < curve_order()
                &&& 27 <= res.v <= 30
                &&& res.signature@.len() == 64
                &&& res.r@.len() == 32
                &&& res.s@.len() == 32
                &&& res.r@ + res.s@ == res.signature@
            },
    {
        if digest.len() != 32 {
            return Err(SignerError::InvalidDigestLength { expected: 32, actual: digest.len() });
        }
        let start = clock_now();
        let full = match sign_recoverable(self.scalar.as_slice(), digest) {
            Ok(b) => b,
            Err(_) => {
                return Err(SignerError::SigningFailed);
            },
        };
        let latency_nanos = match nanos_since(&start) {
            Some(n) => n,
            None => u64::MAX,
        };
        let signature = slice_to_vec(slice_subrange(full.as_slice(), 0, 64));
        let r = slice_to_vec(slice_subrange(full.as_slice(), 0, 32));
        let s = slice_to_vec(slice_subrange(full.as_slice(), 32, 64));
        let v = 27u8 + full[64];
        assert(r@ + s@ =~= signature@);
        Ok(SignatureResult { signature, r, s, v, latency_nanos })
    }
}

} // verus!

use vstd::prelude::*;
use vstd::string::StringSliceAdditionalSpecFns;

use crate::error::SignerError;
use crate::hex_text::{decode_hex_arg, hex_arg_bytes, hex_arg_fault, hex_arg_ok, prefixed_hex, prefixed_hex_text};
use crate::signer::{
    public_point_of, recoverable_signature_of, valid_scalar, ProductionSigner,
};

verus! {

/// The Keccak-256 hash of a byte string.
pub uninterp spec fn keccak256_of(data: Seq<u8>) -> Seq<u8>;

/// Relies on `Keccak256::digest` of the `sha3` crate: the 32-byte Keccak-256
/// hash of `data`.
#[verifier::external_body]
fn keccak256(data: &[u8]) -> (r: Vec<u8>)
    ensures
        r@ == keccak256_of(data@),
        r@.len() == 32,
{
    <sha3::Keccak256 as sha3::Digest>::digest(data).to_vec()
}

/// A signature as the calling side receives it: the byte fields as
/// `0x`-prefixed lowercase hex.
pub struct DigestSignature {
    /// r followed by s.
    pub signature: String,
    /// The r component.
    pub r: String,
    /// The s component.
    pub s: String,
    /// The recovery id offset by 27.
    pub v: u8,
    /// Time spent in the signing primitive, in nanoseconds.
    pub latency_nanos: u64,
}

/// Whether `rec` presents the signature of `digest` under `scalar`.
pub open spec fn presents(rec: DigestSignature, scalar: Seq<u8>, digest: Seq<u8>) -> bool {
    match recoverable_signature_of(scalar, digest) {
        Some(full) => {
            &&& rec.signature@ == prefixed_hex_text(full.subrange(0, 64))
            &&& rec.r@ == prefixed_hex_text(full.subrange(0, 32))
            &&& rec.s@ == prefixed_hex_text(full.subrange(32, 64))
            &&& rec.v == 27 + full[64]
        },
        None => false,
    }
}

/// Whether `t` is the `0x`-prefixed hex text of the signature of `digest`
/// under `scalar`.
pub open spec fn signature_text(t: Seq<char>, scalar: Seq<u8>, digest: Seq<u8>) -> bool {
    match recoverable_signature_of(scalar, digest) {
        Some(full) => t == prefixed_hex_text(full.subrange(0, 64)),
        None => false,
    }
}

/// Whether the success of a request that passed every check is as owed
/// (`ok` tells whether it succeeded): with a given key, it succeeds exactly
/// when the signing primitive accepts key and digest; with a fresh key, it
/// fails only where the primitive refuses the digest under some valid key.
pub open spec fn succeeds_as_owed(ok: bool, digest: Seq<u8>, key: Option<Seq<u8>>) -> bool {
    match key {
        Some(k) => ok <==> recoverable_signature_of(hex_arg_bytes(k), hex_arg_bytes(digest)) is Some,
        None => !ok ==> exists|s: Seq<u8>|
            valid_scalar(s) && (#[trigger] recoverable_signature_of(s, hex_arg_bytes(digest))) is None,
    }
}

/// The bytes of an optional text argument.
pub open spec fn opt_bytes(t: Option<&str>) -> Option<Seq<u8>> {
    match t {
        Some(s) => Some(s.spec_bytes()),
        None => None,
    }
}

/// The error that a request to sign the digest spelled by `digest` with the
/// key spelled by `key` (or a fresh key) meets first, if any.
pub open spec fn request_error(digest: Seq<u8>, key: Option<Seq<u8>>) -> Option<SignerError> {
    if !hex_arg_ok(digest) {
        Some(SignerError::InvalidHexEncoding { fault: hex_arg_fault(digest) })
    } else if key is Some && !hex_arg_ok(key->0) {
        Some(SignerError::InvalidHexEncoding { fault: hex_arg_fault(key->0) })
    } else if key is Some && !valid_scalar(hex_arg_bytes(key->0)) {
        Some(SignerError::InvalidKeyMaterial)
    } else if hex_arg_bytes(digest).len() != 32 {
        Some(
            SignerError::InvalidDigestLength {
                expected: 32,
                actual: hex_arg_bytes(digest).len() as usize,
            },
        )
    } else {
        None
    }
}

/// Whether `rec` presents the signature of the digest spelled by `digest`
/// under the key spelled by `key`, or under some valid key when none is given.
pub open spec fn signed_as_asked(rec: DigestSignature, digest: Seq<u8>, key: Option<Seq<u8>>) -> bool {
    match key {
        Some(k) => presents(rec, hex_arg_bytes(k), hex_arg_bytes(digest)),
        None => exists|s: Seq<u8>| valid_scalar(s) && #[trigger] presents(rec, s, hex_arg_bytes(digest)),
    }
}

/// Signs the digest spelled by `digest_hex` with the key spelled by `key_hex`,
/// or with a fresh random key when none is given.
pub fn sign_digest(digest_hex: &str, key_hex: Option<&str>) -> (r: Result<
    DigestSignature,
    SignerError,
>)
    ensures
        request_error(digest_hex.spec_bytes(), opt_bytes(key_hex)) matches Some(e) ==> r
            == Err::<DigestSignature, SignerError>(e),
        request_error(digest_hex.spec_bytes(), opt_bytes(key_hex)) is None ==> r is Ok || r
            == Err::<DigestSignature, SignerError>(SignerError::SigningFailed),
        request_error(digest_hex.spec_bytes(), opt_bytes(key_hex)) is None ==> succeeds_as_owed(
            r is Ok,
            digest_hex.spec_bytes(),
            opt_bytes(key_hex),
        ),
        r matches Ok(rec) ==> signed_as_asked(rec, digest_hex.spec_bytes(), opt_bytes(key_hex)),
{
    let digest = match decode_hex_arg(digest_hex) {
        Ok(b) => b,
        Err(e) => {
            return Err(e);
        },
    };
    let signer = match key_hex {
        Some(k) => {
            let key_bytes = match decode_hex_arg(k) {
                Ok(b) => b,
                Err(e) => {
                    return Err(e);
                },
            };
            match ProductionSigner::from_bytes(key_bytes.as_slice()) {
                Ok(s) => s,
                Err(e) => {
                    return Err(e);
                },
            }
        },
        None => ProductionSigner::new(),
    };
    let res = match signer.sign(digest.as_slice()) {
        Ok(x) => x,
        Err(e) => {
            return Err(e);
        },
    };
    let rec = DigestSignature {
        signature: prefixed_hex(res.signature.as_slice()),
        r: prefixed_hex(res.r.as_slice()),
        s: prefixed_hex(res.s.as_slice()),
        v: res.v,
        latency_nanos: res.latency_nanos,
    };
    assert(presents(rec, signer@, digest@));
    Ok(rec)
}

/// Hashes `payload` with Keccak-256 and signs the hash with a fresh random
/// key, giving the signature as `0x`-prefixed hex.
pub fn sign_transaction(payload: &str) -> (r: Result<String, SignerError>)
    ensures
        r is Ok || r == Err::<String, SignerError>(SignerError::SigningFailed),
        r is Err ==> exists|s: Seq<u8>|
            valid_scalar(s) && (#[trigger] recoverable_signature_of(
                s,
                keccak256_of(payload.spec_bytes()),
            )) is None,
        r matches Ok(t) ==> {
            &&& t@.len() == 130
            &&& exists|s: Seq<u8>|
                valid_scalar(s) && #[trigger] signature_text(t@, s, keccak256_of(payload.spec_bytes()))
        },
{
    let digest = keccak256(payload.as_bytes());
    let signer = ProductionSigner::new();
    let res = match signer.sign(digest.as_slice()) {
        Ok(x) => x,
        Err(e) => {
            return Err(e);
        },
    };
    let t = prefixed_hex(res.signature.as_slice());
    assert(signature_text(t@, signer@, keccak256_of(payload.spec_bytes())));
    Ok(t)
}

/// The public point of the key spelled by `key_hex`, as `0x`-prefixed hex.
pub fn get_public_key(key_hex: &str) -> (r: Result<String, SignerError>)
    ensures
        !hex_arg_ok(key_hex.spec_bytes()) ==> r == Err::<String, SignerError>(
            SignerError::InvalidHexEncoding { fault: hex_arg_fault(key_hex.spec_bytes()) },
        ),
        hex_arg_ok(key_hex.spec_bytes()) && !valid_scalar(hex_arg_bytes(key_hex.spec_bytes()))
            ==> r == Err::<String, SignerError>(SignerError::InvalidKeyMaterial),
        hex_arg_ok(key_hex.spec_bytes()) && valid_scalar(hex_arg_bytes(key_hex.spec_bytes()))
            ==> (r matches Ok(t) && t@ == prefixed_hex_text(
            public_point_of(hex_arg_bytes(key_hex.spec_bytes())),
        ) && t@.len() == 132 && t@[2] == '0' && t@[3] == '4'),
{
    let key_bytes = match decode_hex_arg(key_hex) {
        Ok(b) => b,
        Err(e) => {
            return Err(e);
        },
    };
    let signer = match ProductionSigner::from_bytes(key_bytes.as_slice()) {
        Ok(s) => s,
        Err(e) => {
            return Err(e);
        },
    };
    let point = signer.public_key();
    Ok(prefixed_hex(point.as_slice()))
}

} // verus!

use vstd::prelude::*;

use crate::hex_text::{
    digit_value, hex_arg_bytes, hex_arg_ok, hex_decoded, hex_encoded, is_hex, is_hex_digit,
    lower_digit,
};
use crate::error::SignerError;
use crate::signer::{
    public_point_of, sign_outcome, valid_scalar, ProductionSigner, SignatureResult,
};

verus! {

proof fn lower_digit_reads_back(x: int)
    requires
        0 <= x < 16,
    ensures
        is_hex_digit(lower_digit(x)),
        digit_value(lower_digit(x)) == x,
        lower_digit(x) != 120,
{
}

/// Lowercase hex text of any byte string is hex text, and it decodes to the
/// same bytes.
pub proof fn hex_round_trip(b: Seq<u8>)
    ensures
        is_hex(hex_encoded(b)),
        hex_decoded(hex_encoded(b)) == b,
{
    let t = hex_encoded(b);
    assert forall|i: int| 0 <= i < t.len() implies is_hex_digit(#[trigger] t[i]) by {
        lower_digit_reads_back(b[i / 2] as int / 16);
        lower_digit_reads_back(b[i / 2] as int % 16);
    }
    assert forall|i: int| 0 <= i < b.len() implies #[trigger] hex_decoded(t)[i] == b[i] by {
        lower_digit_reads_back(b[i] as int / 16);
        lower_digit_reads_back(b[i] as int % 16);
        assert((2 * i) / 2 == i && (2 * i) % 2 == 0);
        assert((2 * i + 1) / 2 == i && (2 * i + 1) % 2 == 1);
        assert(t[2 * i] == lower_digit(b[i] as int / 16));
        assert(t[2 * i + 1] == lower_digit(b[i] as int % 16));
    }
    assert(hex_decoded(t) =~= b);
}

/// A key exported as hex text, bare or behind `0x`, is read back by
/// `get_public_key` as the same scalar, which is accepted and derives the same
/// public point as before the export.
pub proof fn exported_key_round_trip(scalar: Seq<u8>)
    requires
        valid_scalar(scalar),
    ensures
        hex_arg_ok(hex_encoded(scalar)),
        hex_arg_bytes(hex_encoded(scalar)) == scalar,
        valid_scalar(hex_arg_bytes(hex_encoded(scalar))),
        public_point_of(hex_arg_bytes(hex_encoded(scalar))) == public_point_of(scalar),
        hex_arg_ok(seq![48u8, 120u8] + hex_encoded(scalar)),
        hex_arg_bytes(seq![48u8, 120u8] + hex_encoded(scalar)) == scalar,
{
    hex_round_trip(scalar);
    let t = hex_encoded(scalar);
    lower_digit_reads_back(scalar[0] as int % 16);
    assert(t[1] == lower_digit(scalar[0] as int % 16));
    let p = seq![48u8, 120u8] + t;
    assert(p.subrange(2, p.len() as int) =~= t);
}

/// Signing one digest twice with one key fails both times or succeeds both
/// times, and then with byte-identical signatures, components and recovery
/// values: the nonce is derived, not drawn.
pub proof fn signing_is_deterministic(
    key: Seq<u8>,
    digest: Seq<u8>,
    first: Result<SignatureResult, SignerError>,
    second: Result<SignatureResult, SignerError>,
)
    requires
        sign_outcome(key, digest, first),
        sign_outcome(key, digest, second),
    ensures
        first is Ok <==> second is Ok,
        first matches Ok(a) ==> second matches Ok(b) && {
            &&& a.signature@ == b.signature@
            &&& a.r@ == b.r@
            &&& a.s@ == b.s@
            &&& a.v == b.v
        },
        first is Err ==> first == second,
{
}

/// Two keys built from the same scalar bytes give the same public point.
pub proof fn public_point_is_function_of_scalar(a: ProductionSigner, b: ProductionSigner)
    requires
        a.wf(),
        b.wf(),
        a@ == b@,
    ensures
        public_point_of(a@) == public_point_of(b@),
{
}

} // verus!

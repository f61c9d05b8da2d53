use vstd::prelude::*;
use vstd::slice::slice_subrange;
use vstd::string::{StringExecFns, StringSliceAdditionalSpecFns};

use crate::error::{HexFault, SignerError};

verus! {

/// An ASCII hex digit, lower or upper case.
pub open spec fn is_hex_digit(c: u8) -> bool {
    (48 <= c <= 57) || (97 <= c <= 102) || (65 <= c <= 70)
}

/// The value of a hex digit.
pub open spec fn digit_value(c: u8) -> int {
    if 48 <= c <= 57 {
        c - 48
    } else if 97 <= c <= 102 {
        c - 87
    } else {
        c - 55
    }
}

/// Hex text: an even number of hex digits.
pub open spec fn is_hex(t: Seq<u8>) -> bool {
    &&& t.len() % 2 == 0
    &&& forall|i: int| 0 <= i < t.len() ==> is_hex_digit(#[trigger] t[i])
}

/// The bytes that hex text spells, two digits per byte, high digit first.
pub open spec fn hex_decoded(t: Seq<u8>) -> Seq<u8> {
    Seq::new(
        t.len() / 2,
        |i: int| (16 * digit_value(t[2 * i]) + digit_value(t[2 * i + 1])) as u8,
    )
}

/// The lowercase hex digit for a value below 16.
pub open spec fn lower_digit(x: int) -> u8 {
    if x < 10 {
        (48 + x) as u8
    } else {
        (87 + x) as u8
    }
}

/// Lowercase hex text of a byte string.
pub open spec fn hex_encoded(b: Seq<u8>) -> Seq<u8> {
    Seq::new(
        2 * b.len(),
        |i: int|
            if i % 2 == 0 {
                lower_digit(b[i / 2] as int / 16)
            } else {
                lower_digit(b[i / 2] as int % 16)
            },
    )
}

/// Text with one leading `0x` taken off, if it has one.
pub open spec fn without_hex_prefix(t: Seq<u8>) -> Seq<u8> {
    if t.len() >= 2 && t[0] == 48 && t[1] == 120 {
        t.subrange(2, t.len() as int)
    } else {
        t
    }
}

/// Whether an argument is hex text once an optional `0x` is taken off.
pub open spec fn hex_arg_ok(t: Seq<u8>) -> bool {
    is_hex(without_hex_prefix(t))
}

/// The bytes that a hex argument spells.
pub open spec fn hex_arg_bytes(t: Seq<u8>) -> Seq<u8> {
    hex_decoded(without_hex_prefix(t))
}

/// Whether `f` is the fault that the hex decoder finds in `t`: an odd length
/// before anything else, then the first byte that is not a hex digit.
pub open spec fn hex_fault(t: Seq<u8>, f: HexFault) -> bool {
    match f {
        HexFault::OddLength => t.len() % 2 == 1,
        HexFault::InvalidHexCharacter { c, index } => {
            &&& t.len() % 2 == 0
            &&& index < t.len()
            &&& !is_hex_digit(t[index as int])
            &&& c == t[index as int] as char
            &&& forall|j: int| 0 <= j < index ==> is_hex_digit(#[trigger] t[j])
        },
        HexFault::InvalidStringLength => false,
    }
}

/// The fault that the hex decoder finds in `t`, where it finds one.
pub open spec fn hex_fault_of(t: Seq<u8>) -> HexFault {
    choose|f: HexFault| hex_fault(t, f)
}

/// Text has at most one fault in the decoder's sense.
pub proof fn hex_fault_unique(t: Seq<u8>, f: HexFault, g: HexFault)
    requires
        hex_fault(t, f),
        hex_fault(t, g),
    ensures
        f == g,
{
    if let HexFault::InvalidHexCharacter { c: c1, index: i } = f {
        if let HexFault::InvalidHexCharacter { c: c2, index: j } = g {
            if i < j {
                assert(is_hex_digit(t[i as int]));
            } else if j < i {
                assert(is_hex_digit(t[j as int]));
            }
        }
    }
}

/// The fault in a hex argument once an optional `0x` is taken off.
pub open spec fn hex_arg_fault(t: Seq<u8>) -> HexFault {
    hex_fault_of(without_hex_prefix(t))
}

/// ASCII bytes read as characters.
pub open spec fn ascii_chars(t: Seq<u8>) -> Seq<char> {
    t.map_values(|c: u8| c as char)
}

/// `0x` followed by the lowercase hex text of `b`.
pub open spec fn prefixed_hex_text(b: Seq<u8>) -> Seq<char> {
    seq!['0', 'x'] + ascii_chars(hex_encoded(b))
}

/// Relies on `hex::decode`: it accepts exactly the even-length runs of hex
/// digits (either case) and yields one byte per pair, high digit first. It
/// checks the length first, then the digits in order, and reports the first
/// fault found.
#[verifier::external_body]
fn hex_decode(text: &[u8]) -> (r: Result<Vec<u8>, HexFault>)
    ensures
        r is Ok <==> is_hex(text@),
        r matches Ok(b) ==> b@ == hex_decoded(text@),
        r matches Err(f) ==> hex_fault(text@, f),
{
    match hex::decode(text) {
        Ok(b) => Ok(b),
        Err(hex::FromHexError::InvalidHexCharacter { c, index }) => {
            Err(HexFault::InvalidHexCharacter { c, index })
        },
        Err(hex::FromHexError::OddLength) => Err(HexFault::OddLength),
        Err(hex::FromHexError::InvalidStringLength) => Err(HexFault::InvalidStringLength),
    }
}

/// Relies on `hex::encode`: two lowercase digits per byte, high digit first.
#[verifier::external_body]
fn hex_encode(bytes: &[u8]) -> (r: String)
    ensures
        r@ == ascii_chars(hex_encoded(bytes@)),
{
    hex::encode(bytes)
}

/// Decodes a hex argument that may start with `0x`.
pub fn decode_hex_arg(text: &str) -> (r: Result<Vec<u8>, SignerError>)
    ensures
        r is Ok <==> hex_arg_ok(text.spec_bytes()),
        r matches Ok(b) ==> b@ == hex_arg_bytes(text.spec_bytes()),
        r matches Err(e) ==> e == (SignerError::InvalidHexEncoding {
            fault: hex_arg_fault(text.spec_bytes()),
        }),
{
    let bytes = text.as_bytes();
    let n = bytes.len();
    let body: &[u8] = if n >= 2 && bytes[0] == 48u8 && bytes[1] == 120u8 {
        slice_subrange(bytes, 2, n)
    } else {
        bytes
    };
    match hex_decode(body) {
        Ok(v) => Ok(v),
        Err(fault) => {
            proof {
                let t = without_hex_prefix(text.spec_bytes());
                assert(body@ == t);
                hex_fault_unique(t, fault, hex_fault_of(t));
            }
            Err(SignerError::InvalidHexEncoding { fault })
        },
    }
}

/// `0x` followed by the lowercase hex text of `bytes`.
pub fn prefixed_hex(bytes: &[u8]) -> (r: String)
    ensures
        r@ == prefixed_hex_text(bytes@),
{
    let digits = hex_encode(bytes);
    let mut out = String::from_str("0x");
    proof {
        reveal_strlit("0x");
    }
    out.append(digits.as_str());
    assert(out@ =~= prefixed_hex_text(bytes@));
    out
}

} // verus!

use signer::{decode_hex_arg, prefixed_hex, HexFault, SignerError};

#[test]
fn prefixed_hex_is_lowercase_with_prefix() {
    assert_eq!(prefixed_hex(&[0xde, 0xad, 0x01]), "0xdead01");
    assert_eq!(prefixed_hex(&[]), "0x");
}

#[test]
fn decode_accepts_both_cases_and_optional_prefix() {
    assert_eq!(decode_hex_arg("0xDEad01").unwrap(), vec![0xde, 0xad, 0x01]);
    assert_eq!(decode_hex_arg("dead01").unwrap(), vec![0xde, 0xad, 0x01]);
    assert_eq!(decode_hex_arg("0x").unwrap(), Vec::<u8>::new());
    assert_eq!(decode_hex_arg("").unwrap(), Vec::<u8>::new());
}

#[test]
fn decode_refuses_malformed_text() {
    assert_eq!(decode_hex_arg("abc"), Err(SignerError::InvalidHexEncoding { fault: HexFault::OddLength }));
    assert_eq!(decode_hex_arg("0xzz"), Err(SignerError::InvalidHexEncoding { fault: HexFault::InvalidHexCharacter { c: 'z', index: 0 } }));
    assert_eq!(decode_hex_arg("0x0xab"), Err(SignerError::InvalidHexEncoding { fault: HexFault::InvalidHexCharacter { c: 'x', index: 1 } }));
    assert_eq!(decode_hex_arg("éé"), Err(SignerError::InvalidHexEncoding { fault: HexFault::InvalidHexCharacter { c: '\u{c3}', index: 0 } }));
}

#[test]
fn encoded_text_decodes_back() {
    let bytes: Vec<u8> = (0u8..=255).collect();
    let text = prefixed_hex(&bytes);
    assert_eq!(decode_hex_arg(&text).unwrap(), bytes);
    assert_eq!(decode_hex_arg(&text[2..]).unwrap(), bytes);
}

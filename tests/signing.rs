use k256::ecdsa::signature::hazmat::PrehashVerifier;
use k256::ecdsa::{RecoveryId, Signature, VerifyingKey};
use signer::{sign_digest, sign_transaction, HexFault, ProductionSigner, SignerError};

const KEY_ONE: &str = "0x0000000000000000000000000000000000000000000000000000000000000001";
const GENERATOR: &str = "0x0479be667ef9dcbbac55a06295ce870b07029bfcdb2dce28d959f2815b16f81798483ada7726a3c4655da4fbfc0e1108a8fd17b448a68554199c47d08ffb10d4b8";

fn recovered_point(prehash: &[u8], sig_hex: &str, v: u8) -> Vec<u8> {
    let bytes = hex::decode(sig_hex.trim_start_matches("0x")).unwrap();
    let sig = Signature::from_slice(&bytes).unwrap();
    let id = RecoveryId::from_byte(v - 27).unwrap();
    let key = VerifyingKey::recover_from_prehash(prehash, &sig, id).unwrap();
    key.to_encoded_point(false).as_bytes().to_vec()
}

#[test]
fn test_signing() {
    let signer = ProductionSigner::new();
    let digest = [0u8; 32];
    let result = signer.sign(&digest).unwrap();

    assert_eq!(result.signature.len(), 64);
    assert_eq!(result.r.len(), 32);
    assert_eq!(result.s.len(), 32);
    assert!((result.latency_nanos as f64) / 1_000_000.0 < 100.0);
}

#[test]
fn test_invalid_digest_length() {
    let signer = ProductionSigner::new();
    let digest = [0u8; 16];
    let result = signer.sign(&digest);

    assert!(result.is_err());
}

#[test]
fn short_digest_reports_both_lengths() {
    let signer = ProductionSigner::new();
    let result = signer.sign(&[0u8; 16]);
    assert!(matches!(
        result,
        Err(SignerError::InvalidDigestLength { expected: 32, actual: 16 })
    ));
    let long = signer.sign(&[0u8; 33]);
    assert!(matches!(
        long,
        Err(SignerError::InvalidDigestLength { expected: 32, actual: 33 })
    ));
}

#[test]
fn components_concatenate_to_signature() {
    let signer = ProductionSigner::new();
    let result = signer.sign(&[7u8; 32]).unwrap();
    let mut joined = result.r.clone();
    joined.extend_from_slice(&result.s);
    assert_eq!(joined, result.signature);
    assert!(result.v == 27 || result.v == 28);
}

#[test]
fn signing_twice_gives_identical_signatures() {
    let key = hex::decode(&KEY_ONE[2..]).unwrap();
    let signer = ProductionSigner::from_bytes(&key).unwrap();
    let a = signer.sign(&[9u8; 32]).unwrap();
    let b = signer.sign(&[9u8; 32]).unwrap();
    assert_eq!(a.signature, b.signature);
    assert_eq!(a.v, b.v);
    let other = signer.sign(&[8u8; 32]).unwrap();
    assert_ne!(a.signature, other.signature);
}

#[test]
fn sign_digest_recovers_the_signing_key() {
    let digest = [0x11u8; 32];
    let digest_hex = format!("0x{}", hex::encode(digest));
    let rec = sign_digest(&digest_hex, Some(KEY_ONE)).unwrap();
    assert_eq!(rec.signature.len(), 130);
    assert_eq!(rec.r.len(), 66);
    assert_eq!(rec.s.len(), 66);
    assert_eq!(format!("{}{}", rec.r, &rec.s[2..]), rec.signature);
    let point = recovered_point(&digest, &rec.signature, rec.v);
    assert_eq!(format!("0x{}", hex::encode(point)), GENERATOR);
}

#[test]
fn sign_digest_with_fresh_key_gives_valid_record() {
    let rec = sign_digest(&"00".repeat(32), None).unwrap();
    assert!(rec.signature.starts_with("0x"));
    assert_eq!(rec.signature.len(), 130);
    assert!(rec.v == 27 || rec.v == 28);
}

#[test]
fn sign_digest_rejects_short_digest() {
    let result = sign_digest(&"00".repeat(16), Some(KEY_ONE));
    assert!(matches!(
        result,
        Err(SignerError::InvalidDigestLength { expected: 32, actual: 16 })
    ));
}

#[test]
fn sign_digest_validates_hex_before_key() {
    assert!(matches!(
        sign_digest("0xzz", Some("0x00")),
        Err(SignerError::InvalidHexEncoding { fault: HexFault::InvalidHexCharacter { c: 'z', index: 0 } })
    ));
    assert!(matches!(
        sign_digest(&"00".repeat(32), Some("abc")),
        Err(SignerError::InvalidHexEncoding { fault: HexFault::OddLength })
    ));
    assert!(matches!(
        sign_digest(&"00".repeat(16), Some("00")),
        Err(SignerError::InvalidKeyMaterial)
    ));
}

#[test]
fn sign_transaction_signs_keccak_of_payload() {
    let sig = sign_transaction("hello").unwrap();
    assert!(sig.starts_with("0x"));
    assert_eq!(sig.len(), 130);
    assert!(sig[2..].chars().all(|c| c.is_ascii_hexdigit() && !c.is_ascii_uppercase()));
    let hash = hex::decode("1c8aff950685c2ed4bc3174f3472287b56d9517b9c948127319a09a7a36deac8").unwrap();
    let bytes = hex::decode(&sig[2..]).unwrap();
    let parsed = Signature::from_slice(&bytes).unwrap();
    let mut recovered = false;
    for id in 0u8..2 {
        let rid = RecoveryId::from_byte(id).unwrap();
        if let Ok(key) = VerifyingKey::recover_from_prehash(&hash, &parsed, rid) {
            recovered |= key.verify_prehash(&hash, &parsed).is_ok();
        }
    }
    assert!(recovered);
}

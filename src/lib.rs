//! ECDSA digest signing over secp256k1 with verified input handling.
//!
//! The library validates hex text, digest lengths and key scalars, drives the
//! signing primitive of `k256`, and splits its output into the components a
//! chain needs. Each public function states its result exactly, in terms of
//! named results of the cryptographic primitives it relies on.

pub mod error;
pub mod hex_text;
pub mod signer;
pub mod service;
pub mod laws;

pub use error::{HexFault, SignerError};
pub use hex_text::{decode_hex_arg, prefixed_hex};
pub use signer::{ProductionSigner, SignatureResult};
pub use laws::{
    exported_key_round_trip, hex_round_trip, public_point_is_function_of_scalar,
    signing_is_deterministic,
};
pub use service::{get_public_key, sign_digest, sign_transaction, DigestSignature};

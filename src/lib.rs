//! Key derivation for the Sprout shielded-payment key tree.
//!
//! A single 252-bit spending key determines a receiving key and a paying
//! key (both through the keyed pseudorandom function `PRF^addr`, built on
//! one call of the SHA-256 compression function), and the receiving key in
//! turn determines the public transmission key on Curve25519.
pub mod prf;
pub mod keys;

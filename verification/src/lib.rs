//! Textbook public-key primitives over unbounded integers: RSA encryption
//! and signatures, ElGamal encryption, and DSA signatures, built on a shared
//! substrate of modular exponentiation, a SHA-256 digest adapter, and a
//! uniform random sampler.
//!
//! The algorithms are the unpadded, textbook constructions: no padding
//! scheme is applied, and the caller-supplied parameters are never
//! validated, so the crate is not suitable for production use as is.

pub mod arith;
pub mod bigint;
pub mod crypto;
pub mod utils;

//! A confidential computation protocol built on leveled homomorphic
//! encryption: a data producer encrypts a reading under its own key pair, a
//! compute server evaluates a fixed linear formula directly on ciphertexts
//! using only public material, and only the producer can decrypt the result.
//!
//! The polynomial ring arithmetic itself is an external engine and out of
//! scope; this crate verifies the protocol around it over an exact
//! fixed-point model of the engine's artifacts: scheme parameters, keys,
//! evaluation keys, plaintexts and ciphertexts, the wire codec for the
//! artifacts, the producer's connection retry machine, and the server's
//! stateless request evaluation.

pub mod client;
pub mod codec;
pub mod digits;
pub mod engine;
pub mod errors;
pub mod keymgr;
pub mod params;
pub mod server;

//! An appendable, aggregatable signature chain built from Schnorr-style VRF
//! proofs over the Ristretto group.
//!
//! Each link of a chain is a message endorsed by the holder of a public key;
//! all the links collapse into one constant-size [`signature::TokenSignature`]
//! that is checked by a single pass over the chain.
pub mod group;
pub mod transcript;
pub mod signature;
pub mod token;

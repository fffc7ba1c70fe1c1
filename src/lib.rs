//! A privacy-preserving registration service core: a zero-knowledge proof
//! gates one oblivious pseudorandom function evaluation of a blinded value.
pub mod hex_text;
pub mod oprf;
pub mod proof_check;
pub mod registration;

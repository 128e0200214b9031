//! Password-less authentication by a Chaum-Pedersen zero-knowledge proof:
//! a client proves knowledge of a secret exponent relating two public group
//! elements to two generators, without revealing it. `zkp` holds the proof
//! engine, `protocol` the server-side state machine that sequences
//! registration, challenge issuance and verification, `bignum` the
//! arbitrary-precision arithmetic layer, and `laws` the proved guarantees.

pub mod bignum;
pub mod laws;
pub mod protocol;
pub mod zkp;

//! A fixed-shape identity record for a network validator: one account
//! address and three public keys, together with two deterministic codecs —
//! a canonical length-prefixed binary format used for hashing and signing,
//! and a structured interchange message used for cross-process transport.

pub mod account_address;
pub mod canonical;
pub mod errors;
pub mod hex;
pub mod keys;
pub mod laws;
pub mod model;
pub mod util;
pub mod validator_public_keys;

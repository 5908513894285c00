//! Escrow engine for bilateral call and put option contracts.
//!
//! The library holds the verified logic of the protocol: the account codecs,
//! seed and address derivation, instruction decoding and the per-instruction
//! validation and settlement rules. Each handler turns a snapshot of the
//! accounts it was given into a plan of custody operations and a record effect;
//! performing that plan is left to the caller.

pub mod error;
pub mod host;
pub mod instruction;
pub mod keys;
pub mod lifecycle;
pub mod plan;
pub mod processor;
pub mod seeds;
pub mod state;

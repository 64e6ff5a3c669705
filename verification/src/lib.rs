//! A verified bet-resolution engine.
//!
//! Given a recorded bet commitment and a detached ed25519 signature produced
//! by a trusted authority over the commitment's canonical serialization, the
//! engine checks that a native signature-verification record attests to that
//! exact signature, derives a pseudo-random roll from the signature's SHA-256
//! digest, decides whether the bet won, and computes the payout with a fixed
//! house edge using overflow-safe arithmetic.

pub mod bytes;
pub mod commitment;
pub mod record;
pub mod sigcheck;
pub mod outcome;
pub mod engine;
pub mod laws;

//! Verifier for TEE attestation evidence.
//!
//! Given an attestation quote and an ordered measurement event log, this
//! library decides whether the quote's claimed measurement registers are
//! consistent with the event log, whether the embedded report data is well
//! formed, and — on the extended path — whether the quote itself is authentic
//! against certificate collateral. On success it seals the verified facts
//! into a fixed-layout commitment.

pub mod collateral;
pub mod commitment;
pub mod crosscheck;
pub mod errors;
pub mod eventlog;
pub mod hash;
pub mod pipeline;
pub mod quote;
pub mod replay;

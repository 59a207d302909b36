//! Verified core of a zero-knowledge attestation pipeline for TLS notary
//! proofs: the notarised session header, the openings map that is handed
//! to the zkVM guest, and the decision that the guest commits to its journal.

pub mod journal;
pub mod notary;
pub mod pairs;
pub mod session;
pub mod table;
pub mod types;

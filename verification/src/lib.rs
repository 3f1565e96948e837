//! Tier-scoped access control and deterministic transaction weighting.
//!
//! The crate has three parts, composed by the caller:
//! - `registry`: resolves a sender identifier to a credential and decides
//!   whether a declared intent is permitted under the credential's tier.
//! - `consensus`: assigns every transaction a deterministic priority weight
//!   built from a stable field hash, an amplified signal term, a reserved
//!   intent bonus and an externally supplied modifier.
//! - `manifestation`: turns a four-byte little-endian record fetched from a
//!   flat byte store into the bounded modifier the weighting engine consumes.

pub mod consensus;
pub mod manifestation;
pub mod registry;
pub mod strutil;

//! Core engine of a soulbound identity-credential registry.
//!
//! One non-transferable credential per address, a mutable KYC payload per
//! credential, role-based access control, and an approve/revoke protocol by
//! which a credential holder discloses a cooperator-scoped snapshot of the
//! payload to whitelisted third parties.  The whole state lives in an
//! explicit [`state::SbtState`] value; the hosting runtime loads it, applies
//! one operation, and persists it back.

pub mod alist;
pub mod digits;
pub mod error;
pub mod execute;
pub mod laws;
pub mod msg;
pub mod query;
pub mod state;
pub mod vecs;

pub use error::ContractError;

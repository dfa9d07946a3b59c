//! State-transition core of a decentralized polling application.
//!
//! A poll, a candidate under a poll, and a vote receipt each map to exactly
//! one deterministic storage address, and the record store refuses to create
//! a record at an address that is already occupied.  That single primitive
//! (create-if-absent) replaces locking: "has this identity already voted?"
//! is not a query followed by an update but one atomic creation attempt.
//!
//! The host ledger runtime that owns persistent storage, verifies request
//! signatures, and supplies the clock is an external collaborator.  It is
//! modeled here by [`store::RecordStore`], an in-memory store with the same
//! interface contract, so that the three request handlers — [`ops::initialize`],
//! [`ops::initialize_candidate`] and [`ops::vote`] — are verified against an
//! explicit map from derived addresses to records.

pub mod address;
pub mod laws;
pub mod ops;
pub mod records;
pub mod store;

pub use ops::{initialize, initialize_candidate, vote, Initialize, InitializeCandidate, InitializeVote};
pub use records::{Candidate, CustomError, Identity, Poll, RequestError, Voter};

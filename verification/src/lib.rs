//! A permissioned, multi-round voting workflow.
//!
//! An administrator opens a voting session, registers eligible voters,
//! collects proposals, runs a vote, and tallies the results into one or
//! more winners.  Every operation is gated by the session's current
//! workflow status and by the caller's role, and either performs its whole
//! effect or fails with a documented error and changes nothing.
//!
//! The persistence substrate (record storage keyed by derived keys,
//! caller-identity verification, notification delivery) is a collaborator
//! of this library, not part of it: callers hand operations a
//! [`ledger::SessionLedger`] holding one session's records, and identities
//! are opaque 64-bit values already verified by that substrate.

pub mod errors;
pub mod events;
pub mod global;
pub mod instructions;
pub mod laws;
pub mod ledger;
pub mod proposal;
pub mod tally;
pub mod voter;
pub mod voting_session;

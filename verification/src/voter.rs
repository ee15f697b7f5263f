//! Per-session voter records.

use vstd::prelude::*;

verus! {

/// One admitted voter of one session, keyed by (session id, voter
/// identity); at most one record exists per pair, and the session
/// administrator never has one.
#[derive(Clone, Copy, Debug, PartialEq, Eq, Structural)]
pub struct VoterAccount {
    /// The owning session.
    pub session_id: u64,
    /// The voter's identity.
    pub voter: u64,
    /// 1-based registration order, unique within the session.
    pub voter_id: u32,
    /// Whether this voter has cast their single vote.
    pub has_voted: bool,
    /// Id of the proposal voted for; 0 while `has_voted` is false.
    pub voted_proposal_id: u8,
    /// Number of proposals this voter has registered.
    pub nb_proposals: u8,
}

/// Notification payload: a voter was admitted to a session.
#[derive(Clone, Copy, Debug, PartialEq, Eq, Structural)]
pub struct VoterRegistered {
    pub session_id: u64,
    pub voter: u64,
}

/// Notification payload: a voter cast a vote.
#[derive(Clone, Copy, Debug, PartialEq, Eq, Structural)]
pub struct Voted {
    pub session_id: u64,
    pub proposal_id: u8,
    pub voter: u64,
}

} // verus!

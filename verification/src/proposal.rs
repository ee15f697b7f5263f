//! Per-session proposal records.

use vstd::prelude::*;

verus! {

/// Id of the reserved blank proposal, created automatically when
/// proposal registration opens.  Voting for it is the designated way to
/// cast a blank vote.
pub const BLANK_PROPOSAL_ID: u8 = 1;

/// Longest allowed proposal description, in characters.
pub const PROPOSAL_DESCRIPTION_MAX_LEN: usize = 255;

/// One proposal of one session, keyed by (session id, proposal id).
/// Ids are dense: the blank proposal holds id 1 and each later
/// registration takes the next free ordinal, capped by the single-byte
/// id space.
#[derive(Clone, Debug)]
pub struct ProposalAccount {
    /// The owning session.
    pub session_id: u64,
    /// Ordinal of this proposal within the session, starting at the
    /// reserved blank id.
    pub proposal_id: u8,
    /// What is proposed, at most [`PROPOSAL_DESCRIPTION_MAX_LEN`]
    /// characters.
    pub description: String,
    /// Identity of the registering voter (the administrator for the
    /// blank proposal).
    pub proposer: u64,
    /// Number of votes received so far; only ever increases, by one per
    /// cast vote.
    pub vote_count: u32,
}

/// Notification payload: a proposal was registered.
#[derive(Debug)]
pub struct ProposalRegistered {
    pub session_id: u64,
    pub proposal_id: u8,
    pub description: String,
}

/// A tallied winner, read back for presentation: the winning proposal's
/// record fields gathered in one place.
#[derive(Debug)]
pub struct WinningProposal {
    pub proposal_id: u8,
    pub description: String,
    pub proposer: u64,
    pub vote_count: u32,
}

} // verus!

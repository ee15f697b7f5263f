//! The session record: workflow status, administrator, counters, result.

use vstd::prelude::*;

verus! {

/// Longest allowed session name, in characters.
pub const NAME_MAX_LEN: usize = 20;

/// Longest allowed session description, in characters.
pub const DESCRIPTION_MAX_LEN: usize = 80;

/// The workflow step a session is in.
///
/// A session is created in `RegisteringVoters` and only ever advances to
/// the immediately following status, one step per administrator call,
/// until it reaches the absorbing terminal status `VotesTallied`.
/// `Unset` never occurs on a stored session; it exists only as the
/// previous status in the notification emitted at session creation.
#[derive(Clone, Copy, Debug, PartialEq, Eq, Structural)]
pub enum SessionWorkflowStatus {
    Unset,
    RegisteringVoters,
    ProposalsRegistrationStarted,
    ProposalsRegistrationEnded,
    VotingSessionStarted,
    VotingSessionEnded,
    VotesTallied,
}

/// Position of a status in the fixed workflow order.
pub open spec fn status_rank(s: SessionWorkflowStatus) -> int {
    match s {
        SessionWorkflowStatus::Unset => 0,
        SessionWorkflowStatus::RegisteringVoters => 1,
        SessionWorkflowStatus::ProposalsRegistrationStarted => 2,
        SessionWorkflowStatus::ProposalsRegistrationEnded => 3,
        SessionWorkflowStatus::VotingSessionStarted => 4,
        SessionWorkflowStatus::VotingSessionEnded => 5,
        SessionWorkflowStatus::VotesTallied => 6,
    }
}

/// `b` is the status immediately after `a` in the workflow order.
pub open spec fn is_next_status(a: SessionWorkflowStatus, b: SessionWorkflowStatus) -> bool {
    status_rank(b) == status_rank(a) + 1
}

/// One observation step of a session's status: it either stays where it
/// is or advances to the immediately following status.  Every workflow
/// operation guarantees this of the session it touches, so over any call
/// sequence the observed statuses form a non-decreasing walk with no
/// skipped step and no regression.
pub open spec fn phase_step(a: SessionWorkflowStatus, b: SessionWorkflowStatus) -> bool {
    b == a || is_next_status(a, b)
}

/// The aggregate outcome written by the tally, all zero/empty before it.
#[derive(Debug, PartialEq, Eq)]
pub struct SessionResult {
    /// Number of votes cast, the blank ones included.
    pub total_votes: u32,
    /// Number of votes cast for the reserved blank proposal.
    pub blank_votes: u32,
    /// Number of registered voters who never cast a vote.
    pub abstention: u32,
    /// Ids of every non-blank proposal tied for the highest vote count,
    /// in proposal-ordinal order; empty when no non-blank vote was cast.
    pub winning_proposals: Vec<u8>,
}

/// One voting session's own record.
#[derive(Debug)]
pub struct SessionAccount {
    /// Identifier assigned from the global registry; immutable.
    pub session_id: u64,
    /// Session name, at most [`NAME_MAX_LEN`] characters.
    pub name: String,
    /// Session description, at most [`DESCRIPTION_MAX_LEN`] characters.
    pub description: String,
    /// Current workflow step; gates every operation.
    pub status: SessionWorkflowStatus,
    /// The creator's identity; immutable and distinct from every voter.
    pub admin: u64,
    /// Number of registered voters.
    pub voters_count: u32,
    /// Number of proposal records, the reserved blank one included.
    pub proposals_count: u8,
    /// Tally outcome, populated only in status `VotesTallied`.
    pub result: SessionResult,
}

/// Notification payload: a session was created.
#[derive(Debug)]
pub struct SessionCreated {
    pub session_id: u64,
    pub name: String,
    pub description: String,
}

/// Notification payload: a session's workflow status changed.
#[derive(Clone, Copy, Debug, PartialEq, Eq, Structural)]
pub struct SessionWorkflowStatusChanged {
    pub session_id: u64,
    pub previous_status: SessionWorkflowStatus,
    pub current_status: SessionWorkflowStatus,
}

/// Notification payload: a session's votes were tallied.
#[derive(Debug)]
pub struct VotesTallied {
    pub session_id: u64,
    pub voters_count: u32,
    pub total_votes: u32,
    pub blank_votes: u32,
    pub abstention: u32,
    pub winning_proposals: Vec<u8>,
}

} // verus!

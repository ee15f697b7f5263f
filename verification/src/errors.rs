//! The errors a workflow operation can fail with.
//!
//! Every error is local to one rejected call: the operation that returns
//! it has mutated nothing, and no notification has been emitted.

use vstd::prelude::*;

verus! {

/// Why a workflow operation was rejected.
#[derive(Clone, Copy, Debug, PartialEq, Eq, Structural)]
pub enum VotingError {
    /// The caller does not hold the role the operation demands.
    Unauthorized,
    /// The session is not in the workflow status the operation demands.
    InvalidPhase,
    /// A voter record for this (session, voter) pair already exists.
    AlreadyRegistered,
    /// The voter has already cast a vote in this session.
    AlreadyVoted,
    /// The session administrator cannot be registered as a voter.
    AdminCannotBeVoter,
    /// The session administrator cannot register a proposal.
    AdminCannotPropose,
    /// The session administrator cannot cast a vote.
    AdminCannotVote,
    /// The caller has no voter record in this session.
    NotARegisteredVoter,
    /// A bounded string argument exceeds its allowed length.
    ValidationError,
    /// The proposal set handed to the tally has the wrong size.
    IncompleteProposalSet,
    /// The single-byte proposal id space is exhausted.
    TooManyProposals,
}

} // verus!

//! The ordered notification list a session appends to.
//!
//! Notifications are emitted within the operation that caused them and
//! are append-only; the library itself never reads them back.

use vstd::prelude::*;

use crate::proposal::ProposalRegistered;
use crate::voter::{Voted, VoterRegistered};
use crate::voting_session::{
    SessionCreated, SessionWorkflowStatus, SessionWorkflowStatusChanged, VotesTallied,
};

verus! {

/// One emitted notification.
#[derive(Debug)]
pub enum Notification {
    SessionCreated(SessionCreated),
    SessionWorkflowStatusChanged(SessionWorkflowStatusChanged),
    VoterRegistered(VoterRegistered),
    ProposalRegistered(ProposalRegistered),
    Voted(Voted),
    VotesTallied(VotesTallied),
}

/// `n` announces that session `session_id` was created under the given
/// name and description.
pub open spec fn is_session_created(
    n: Notification,
    session_id: u64,
    name: Seq<char>,
    description: Seq<char>,
) -> bool {
    match n {
        Notification::SessionCreated(e) => {
            &&& e.session_id == session_id
            &&& e.name@ == name
            &&& e.description@ == description
        },
        _ => false,
    }
}

/// `n` announces the status change `previous` to `current` of session
/// `session_id`.
pub open spec fn is_status_changed(
    n: Notification,
    session_id: u64,
    previous: SessionWorkflowStatus,
    current: SessionWorkflowStatus,
) -> bool {
    n == Notification::SessionWorkflowStatusChanged(
        SessionWorkflowStatusChanged {
            session_id,
            previous_status: previous,
            current_status: current,
        },
    )
}

/// `n` announces that proposal `proposal_id` with the given description
/// was registered in session `session_id`.
pub open spec fn is_proposal_registered(
    n: Notification,
    session_id: u64,
    proposal_id: u8,
    description: Seq<char>,
) -> bool {
    match n {
        Notification::ProposalRegistered(e) => {
            &&& e.session_id == session_id
            &&& e.proposal_id == proposal_id
            &&& e.description@ == description
        },
        _ => false,
    }
}

/// `n` announces the full tally outcome of session `session_id`.
pub open spec fn is_votes_tallied(
    n: Notification,
    session_id: u64,
    voters_count: u32,
    total_votes: u32,
    blank_votes: u32,
    abstention: u32,
    winning_proposals: Seq<u8>,
) -> bool {
    match n {
        Notification::VotesTallied(e) => {
            &&& e.session_id == session_id
            &&& e.voters_count == voters_count
            &&& e.total_votes == total_votes
            &&& e.blank_votes == blank_votes
            &&& e.abstention == abstention
            &&& e.winning_proposals@ == winning_proposals
        },
        _ => false,
    }
}

} // verus!

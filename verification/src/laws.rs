//! Library-wide laws, stated once and proved from the invariant.
//!
//! Each proof function here records a guarantee that spans the whole
//! workflow rather than a single operation: how the status may move,
//! and what the record counters and ordinals always mean on a
//! well-formed ledger.  The per-operation guarantees — exact effects,
//! error conditions, and that a failed call changes nothing — stand in
//! the `ensures` of the operations themselves.

use vstd::prelude::*;

use crate::ledger::SessionLedger;
use crate::proposal::BLANK_PROPOSAL_ID;
use crate::tally::{count_voted, lemma_count_voted_bounds, sum_votes, votes_for};
use crate::voting_session::{phase_step, status_rank, SessionWorkflowStatus};

verus! {

/// A session's status walk is non-decreasing and gapless: every
/// operation guarantees `phase_step` between the status it saw and the
/// status it left, and one such step either stands still or moves to
/// the immediately following status — never backward, never skipping.
pub proof fn lemma_phase_step_monotonic(a: SessionWorkflowStatus, b: SessionWorkflowStatus)
    requires
        phase_step(a, b),
    ensures
        status_rank(a) <= status_rank(b),
        status_rank(b) <= status_rank(a) + 1,
{
}

/// Chaining steps: over any observed run of statuses in which each
/// neighbouring pair is one operation's `phase_step`, the rank never
/// decreases — a session can only move forward through the workflow.
pub proof fn lemma_status_walk_monotonic(walk: Seq<SessionWorkflowStatus>)
    requires
        forall|i: int|
            0 <= i < walk.len() - 1 ==> phase_step(#[trigger] walk[i], walk[i + 1]),
    ensures
        forall|i: int, j: int|
            0 <= i <= j < walk.len() ==> status_rank(#[trigger] walk[i]) <= status_rank(
                #[trigger] walk[j],
            ),
{
    assert forall|i: int, j: int| 0 <= i <= j < walk.len() implies status_rank(
        #[trigger] walk[i],
    ) <= status_rank(#[trigger] walk[j]) by {
        lemma_status_walk_reaches(walk, i, j);
    }
}

/// Helper for [`lemma_status_walk_monotonic`]: rank is carried along
/// the walk one step at a time.
proof fn lemma_status_walk_reaches(walk: Seq<SessionWorkflowStatus>, i: int, j: int)
    requires
        forall|k: int|
            0 <= k < walk.len() - 1 ==> phase_step(#[trigger] walk[k], walk[k + 1]),
        0 <= i <= j < walk.len(),
    ensures
        status_rank(walk[i]) <= status_rank(walk[j]),
    decreases j - i,
{
    if i < j {
        lemma_status_walk_reaches(walk, i, j - 1);
        assert(phase_step(walk[j - 1], walk[j]));
    }
}

/// The terminal status is absorbing: no step leaves `VotesTallied`.
pub proof fn lemma_terminal_status_absorbing(b: SessionWorkflowStatus)
    requires
        phase_step(SessionWorkflowStatus::VotesTallied, b),
    ensures
        b == SessionWorkflowStatus::VotesTallied,
{
}

/// On a well-formed ledger the voter count equals the number of voter
/// records, and each record's ordinal equals its 1-based registration
/// position — so ordinals are unique, as are the voter identities.
pub proof fn lemma_voter_ordinals(l: SessionLedger)
    requires
        l.wf(),
    ensures
        l.session.voters_count == l.voters@.len(),
        forall|k: int| 0 <= k < l.voters@.len() ==> #[trigger] l.voters@[k].voter_id == k + 1,
        forall|k: int, j: int|
            #![trigger l.voters@[k], l.voters@[j]]
            0 <= k < j < l.voters@.len() ==> l.voters@[k].voter_id != l.voters@[j].voter_id
                && l.voters@[k].voter != l.voters@[j].voter,
{
}

/// On a well-formed ledger the proposal count equals the number of
/// proposal records, ids are dense — the record at position `k` holds
/// id `k + 1`, hence unique ids in registration order — and, once
/// proposal registration has opened, the reserved blank proposal stands
/// first, authored by the administrator.
pub proof fn lemma_proposal_ids(l: SessionLedger)
    requires
        l.wf(),
    ensures
        l.session.proposals_count == l.proposals@.len(),
        forall|k: int|
            0 <= k < l.proposals@.len() ==> #[trigger] l.proposals@[k].proposal_id == k + 1,
        forall|k: int, j: int|
            #![trigger l.proposals@[k], l.proposals@[j]]
            0 <= k < j < l.proposals@.len() ==> l.proposals@[k].proposal_id
                != l.proposals@[j].proposal_id,
        status_rank(l.session.status) >= status_rank(
            SessionWorkflowStatus::ProposalsRegistrationStarted,
        ) ==> l.proposals@.len() >= 1 && l.proposals@[0].proposal_id == BLANK_PROPOSAL_ID
            && l.proposals@[0].proposer == l.session.admin,
{
}

/// On a well-formed ledger the votes accumulated on its own proposal
/// records account for exactly the voters marked as having voted —
/// never more than the session has voters.  Handing the tally the
/// session's own record set therefore always satisfies the tally's
/// precondition; only a caller-forged set can carry too many votes.
pub proof fn lemma_own_records_bound_votes(l: SessionLedger)
    requires
        l.wf(),
    ensures
        sum_votes(l.proposals@) == count_voted(l.voters@),
        sum_votes(l.proposals@) <= l.session.voters_count,
{
    lemma_count_voted_bounds(l.voters@);
}

/// A proposal's vote count is never an arbitrary number: on a
/// well-formed ledger it equals exactly the number of voters whose
/// recorded choice points at that proposal, so the tally of the
/// session's own records reflects the cast votes and nothing else.
pub proof fn lemma_vote_counts_match_choices(l: SessionLedger)
    requires
        l.wf(),
    ensures
        forall|k: int|
            #![trigger l.proposals@[k]]
            0 <= k < l.proposals@.len() ==> l.proposals@[k].vote_count == votes_for(
                l.voters@,
                (k + 1) as u8,
            ),
{
}

} // verus!

//! The tally engine and the tally operation: totals, blank votes,
//! derived abstention, winner sets with ties, and every rejection.

use voting::errors::VotingError;
use voting::events::Notification;
use voting::global::{init_global, GlobalAccount};
use voting::instructions::{
    create_voting_session, register_proposal, register_voter, start_proposals_registration,
    start_voting_session, stop_proposals_registration, stop_voting_session, tally_votes, vote,
};
use voting::ledger::SessionLedger;
use voting::proposal::ProposalAccount;
use voting::tally::compute_tally;
use voting::voting_session::SessionWorkflowStatus;

const ADMIN: u64 = 1;

/// Builds a session in `VotingSessionStarted` with the given voters and
/// one proposal per description (ids 2, 3, ... after the blank one).
fn session_ready_to_vote(
    global: &mut GlobalAccount,
    voters: &[u64],
    proposals: &[&str],
) -> SessionLedger {
    let mut ledger =
        create_voting_session(global, ADMIN, String::from("poll"), String::from("a poll"))
            .expect("session creation must succeed");
    for &v in voters {
        register_voter(&mut ledger, ADMIN, v).unwrap();
    }
    start_proposals_registration(&mut ledger, ADMIN).unwrap();
    for d in proposals {
        register_proposal(&mut ledger, voters[0], String::from(*d)).unwrap();
    }
    stop_proposals_registration(&mut ledger, ADMIN).unwrap();
    start_voting_session(&mut ledger, ADMIN).unwrap();
    ledger
}

fn tally_own_proposals(ledger: &mut SessionLedger) -> Result<(), VotingError> {
    let proposals = ledger.proposals.clone();
    tally_votes(ledger, ADMIN, &proposals)
}

#[test]
fn tally_with_blank_vote_and_abstention() {
    // Six voters; proposal A gets 3 votes, proposal B gets 1, the blank
    // proposal gets 1, and one voter never votes.
    let mut global = init_global();
    let voters = [10, 11, 12, 13, 14, 15];
    let mut ledger = session_ready_to_vote(&mut global, &voters, &["A", "B"]);
    vote(&mut ledger, 10, 2).unwrap();
    vote(&mut ledger, 11, 2).unwrap();
    vote(&mut ledger, 12, 2).unwrap();
    vote(&mut ledger, 13, 3).unwrap();
    vote(&mut ledger, 14, 1).unwrap();
    stop_voting_session(&mut ledger, ADMIN).unwrap();
    tally_own_proposals(&mut ledger).unwrap();
    assert_eq!(ledger.session.status, SessionWorkflowStatus::VotesTallied);
    assert_eq!(ledger.session.result.total_votes, 5);
    assert_eq!(ledger.session.result.blank_votes, 1);
    assert_eq!(ledger.session.result.abstention, 1);
    assert_eq!(ledger.session.result.winning_proposals, vec![2]);
    // The tally-completed notification carries the full result, then the
    // status change to the terminal status follows.
    let n = ledger.events.len();
    match &ledger.events[n - 2] {
        Notification::VotesTallied(e) => {
            assert_eq!(e.voters_count, 6);
            assert_eq!(e.total_votes, 5);
            assert_eq!(e.blank_votes, 1);
            assert_eq!(e.abstention, 1);
            assert_eq!(e.winning_proposals, vec![2]);
        }
        other => panic!("expected a tally-completed notification, got {:?}", other),
    }
    match &ledger.events[n - 1] {
        Notification::SessionWorkflowStatusChanged(e) => {
            assert_eq!(e.previous_status, SessionWorkflowStatus::VotingSessionEnded);
            assert_eq!(e.current_status, SessionWorkflowStatus::VotesTallied);
        }
        other => panic!("expected a status-changed notification, got {:?}", other),
    }
}

#[test]
fn tally_reports_every_tied_winner() {
    // Four voters; proposals A and B get two votes each, no blank votes.
    let mut global = init_global();
    let voters = [10, 11, 12, 13];
    let mut ledger = session_ready_to_vote(&mut global, &voters, &["A", "B"]);
    vote(&mut ledger, 10, 2).unwrap();
    vote(&mut ledger, 11, 3).unwrap();
    vote(&mut ledger, 12, 2).unwrap();
    vote(&mut ledger, 13, 3).unwrap();
    stop_voting_session(&mut ledger, ADMIN).unwrap();
    tally_own_proposals(&mut ledger).unwrap();
    assert_eq!(ledger.session.result.total_votes, 4);
    assert_eq!(ledger.session.result.blank_votes, 0);
    assert_eq!(ledger.session.result.abstention, 0);
    assert_eq!(ledger.session.result.winning_proposals, vec![2, 3]);
}

#[test]
fn tally_with_no_votes_counts_all_as_abstention() {
    let mut global = init_global();
    let voters = [10, 11, 12];
    let mut ledger = session_ready_to_vote(&mut global, &voters, &["A"]);
    stop_voting_session(&mut ledger, ADMIN).unwrap();
    tally_own_proposals(&mut ledger).unwrap();
    assert_eq!(ledger.session.result.total_votes, 0);
    assert_eq!(ledger.session.result.blank_votes, 0);
    assert_eq!(ledger.session.result.abstention, 3);
    assert!(ledger.session.result.winning_proposals.is_empty());
}

#[test]
fn tally_rejects_each_misuse() {
    let mut global = init_global();
    let mut ledger = session_ready_to_vote(&mut global, &[10, 11], &["A"]);
    let proposals = ledger.proposals.clone();
    // Voting has not ended yet.
    assert_eq!(
        tally_votes(&mut ledger, ADMIN, &proposals).unwrap_err(),
        VotingError::InvalidPhase,
    );
    stop_voting_session(&mut ledger, ADMIN).unwrap();
    // Only the administrator may tally.
    assert_eq!(tally_votes(&mut ledger, 10, &proposals).unwrap_err(), VotingError::Unauthorized);
    // The supplied set must hold exactly the session's proposals.
    let short: Vec<ProposalAccount> = proposals[..1].to_vec();
    assert_eq!(
        tally_votes(&mut ledger, ADMIN, &short).unwrap_err(),
        VotingError::IncompleteProposalSet,
    );
    assert_eq!(ledger.session.status, SessionWorkflowStatus::VotingSessionEnded);
    assert_eq!(ledger.session.result.total_votes, 0);
    // With the right set the tally goes through, and the terminal status
    // then refuses a second run.
    tally_votes(&mut ledger, ADMIN, &proposals).unwrap();
    assert_eq!(
        tally_votes(&mut ledger, ADMIN, &proposals).unwrap_err(),
        VotingError::InvalidPhase,
    );
    assert_eq!(ledger.session.status, SessionWorkflowStatus::VotesTallied);
}

fn proposal(id: u8, votes: u32) -> ProposalAccount {
    ProposalAccount {
        session_id: 0,
        proposal_id: id,
        description: format!("proposal {}", id),
        proposer: 10,
        vote_count: votes,
    }
}

#[test]
fn compute_tally_on_a_closed_set() {
    // The engine alone, over a hand-built set: blank 1 vote, A 3, B 1,
    // against six voters.
    let proposals = vec![proposal(1, 1), proposal(2, 3), proposal(3, 1)];
    let r = compute_tally(&proposals, 6);
    assert_eq!(r.total_votes, 5);
    assert_eq!(r.blank_votes, 1);
    assert_eq!(r.abstention, 1);
    assert_eq!(r.winning_proposals, vec![2]);
}

#[test]
fn compute_tally_keeps_ordinal_order_among_tied_winners() {
    let proposals = vec![proposal(1, 0), proposal(2, 2), proposal(3, 1), proposal(4, 2)];
    let r = compute_tally(&proposals, 5);
    assert_eq!(r.total_votes, 5);
    assert_eq!(r.blank_votes, 0);
    assert_eq!(r.abstention, 0);
    assert_eq!(r.winning_proposals, vec![2, 4]);
}

#[test]
fn compute_tally_of_empty_set() {
    let proposals: Vec<ProposalAccount> = Vec::new();
    let r = compute_tally(&proposals, 4);
    assert_eq!(r.total_votes, 0);
    assert_eq!(r.blank_votes, 0);
    assert_eq!(r.abstention, 4);
    assert!(r.winning_proposals.is_empty());
}

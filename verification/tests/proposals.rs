//! Proposal registration: the reserved blank proposal, dense ids,
//! per-voter authorship counters, and every rejection.

use voting::errors::VotingError;
use voting::events::Notification;
use voting::global::{init_global, GlobalAccount};
use voting::instructions::{
    create_voting_session, register_internal_proposal, register_proposal, register_voter,
    start_proposals_registration, stop_proposals_registration,
};
use voting::ledger::SessionLedger;
use voting::proposal::{ProposalAccount, BLANK_PROPOSAL_ID};
use voting::voting_session::SessionWorkflowStatus;

const ADMIN: u64 = 1;

fn session_with_voters(global: &mut GlobalAccount, voters: &[u64]) -> SessionLedger {
    let mut ledger =
        create_voting_session(global, ADMIN, String::from("poll"), String::from("a poll"))
            .expect("session creation must succeed");
    for &v in voters {
        register_voter(&mut ledger, ADMIN, v).unwrap();
    }
    ledger
}

#[test]
fn start_proposals_registration_creates_blank() {
    let mut global = init_global();
    let mut ledger = session_with_voters(&mut global, &[10]);
    let events_before = ledger.events.len();
    start_proposals_registration(&mut ledger, ADMIN).unwrap();
    assert_eq!(ledger.session.status, SessionWorkflowStatus::ProposalsRegistrationStarted);
    assert_eq!(ledger.session.proposals_count, 1);
    assert_eq!(ledger.proposals.len(), 1);
    let blank = &ledger.proposals[0];
    assert_eq!(blank.proposal_id, BLANK_PROPOSAL_ID);
    assert_eq!(blank.proposer, ADMIN);
    assert_eq!(blank.description, "blank");
    assert_eq!(blank.vote_count, 0);
    assert_eq!(blank.session_id, ledger.session.session_id);
    assert_eq!(ledger.events.len(), events_before + 2);
    match &ledger.events[events_before] {
        Notification::ProposalRegistered(e) => {
            assert_eq!(e.proposal_id, BLANK_PROPOSAL_ID);
            assert_eq!(e.description, "blank");
        }
        other => panic!("expected a proposal-registered notification, got {:?}", other),
    }
    match &ledger.events[events_before + 1] {
        Notification::SessionWorkflowStatusChanged(e) => {
            assert_eq!(e.previous_status, SessionWorkflowStatus::RegisteringVoters);
            assert_eq!(e.current_status, SessionWorkflowStatus::ProposalsRegistrationStarted);
        }
        other => panic!("expected a status-changed notification, got {:?}", other),
    }
}

#[test]
fn proposal_ids_are_dense_and_ordered() {
    let mut global = init_global();
    let mut ledger = session_with_voters(&mut global, &[10, 11]);
    start_proposals_registration(&mut ledger, ADMIN).unwrap();
    let first = register_proposal(&mut ledger, 10, String::from("tea")).unwrap();
    let second = register_proposal(&mut ledger, 11, String::from("coffee")).unwrap();
    let third = register_proposal(&mut ledger, 10, String::from("water")).unwrap();
    assert_eq!(ledger.session.proposals_count, 4);
    assert_eq!((first.proposal_id, second.proposal_id, third.proposal_id), (2, 3, 4));
    // Re-read records match what was returned.
    assert_eq!(ledger.proposals[1].proposal_id, 2);
    assert_eq!(ledger.proposals[1].description, "tea");
    assert_eq!(ledger.proposals[1].proposer, 10);
    assert_eq!(ledger.proposals[1].vote_count, 0);
    assert_eq!(ledger.proposals[2].description, "coffee");
    assert_eq!(ledger.proposals[3].description, "water");
    // Authorship counters follow the proposers.
    assert_eq!(ledger.voters[0].nb_proposals, 2);
    assert_eq!(ledger.voters[1].nb_proposals, 1);
}

#[test]
fn register_proposal_rejects_admin_in_every_phase() {
    let mut global = init_global();
    let mut ledger = session_with_voters(&mut global, &[10]);
    assert_eq!(
        register_proposal(&mut ledger, ADMIN, String::from("a")).unwrap_err(),
        VotingError::AdminCannotPropose,
    );
    start_proposals_registration(&mut ledger, ADMIN).unwrap();
    assert_eq!(
        register_proposal(&mut ledger, ADMIN, String::from("a")).unwrap_err(),
        VotingError::AdminCannotPropose,
    );
    stop_proposals_registration(&mut ledger, ADMIN).unwrap();
    assert_eq!(
        register_proposal(&mut ledger, ADMIN, String::from("a")).unwrap_err(),
        VotingError::AdminCannotPropose,
    );
}

#[test]
fn register_proposal_rejects_non_voter_and_wrong_phase() {
    let mut global = init_global();
    let mut ledger = session_with_voters(&mut global, &[10]);
    // Before proposal registration opens: the phase gate reports the error
    // for a registered voter, the registry gate for a stranger.
    assert_eq!(
        register_proposal(&mut ledger, 99, String::from("a")).unwrap_err(),
        VotingError::NotARegisteredVoter,
    );
    assert_eq!(
        register_proposal(&mut ledger, 10, String::from("a")).unwrap_err(),
        VotingError::InvalidPhase,
    );
    start_proposals_registration(&mut ledger, ADMIN).unwrap();
    stop_proposals_registration(&mut ledger, ADMIN).unwrap();
    let proposals_before = ledger.proposals.len();
    assert_eq!(
        register_proposal(&mut ledger, 10, String::from("a")).unwrap_err(),
        VotingError::InvalidPhase,
    );
    assert_eq!(ledger.proposals.len(), proposals_before);
}

#[test]
fn register_proposal_rejects_long_description() {
    let mut global = init_global();
    let mut ledger = session_with_voters(&mut global, &[10]);
    start_proposals_registration(&mut ledger, ADMIN).unwrap();
    let long = "x".repeat(256);
    assert_eq!(
        register_proposal(&mut ledger, 10, long).unwrap_err(),
        VotingError::ValidationError,
    );
    assert_eq!(ledger.session.proposals_count, 1);
    let just_fits = "x".repeat(255);
    assert!(register_proposal(&mut ledger, 10, just_fits).is_ok());
}

#[test]
fn register_proposal_rejects_exhausted_id_space() {
    let mut global = init_global();
    let mut ledger = session_with_voters(&mut global, &[10]);
    start_proposals_registration(&mut ledger, ADMIN).unwrap();
    for i in 0..254u32 {
        register_proposal(&mut ledger, 10, format!("proposal {}", i)).unwrap();
    }
    assert_eq!(ledger.session.proposals_count, 255);
    assert_eq!(
        register_proposal(&mut ledger, 10, String::from("one too many")).unwrap_err(),
        VotingError::TooManyProposals,
    );
    assert_eq!(ledger.session.proposals_count, 255);
}

#[test]
fn register_internal_proposal_appends_record_and_event() {
    let mut proposals: Vec<ProposalAccount> = Vec::new();
    let mut events: Vec<Notification> = Vec::new();
    register_internal_proposal(&mut proposals, &mut events, 7, ADMIN, 1, String::from("blank"));
    assert_eq!(proposals.len(), 1);
    assert_eq!(proposals[0].session_id, 7);
    assert_eq!(proposals[0].proposal_id, 1);
    assert_eq!(proposals[0].description, "blank");
    assert_eq!(proposals[0].proposer, ADMIN);
    assert_eq!(proposals[0].vote_count, 0);
    assert_eq!(events.len(), 1);
    match &events[0] {
        Notification::ProposalRegistered(e) => {
            assert_eq!(e.session_id, 7);
            assert_eq!(e.proposal_id, 1);
            assert_eq!(e.description, "blank");
        }
        other => panic!("expected a proposal-registered notification, got {:?}", other),
    }
}

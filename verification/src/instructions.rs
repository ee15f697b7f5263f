//! The workflow operations.
//!
//! Each operation validates the caller's role, the session's workflow
//! status and the uniqueness rules before touching anything, then
//! performs its whole effect — record mutations and notifications — or,
//! on the first failed check, returns the documented error with the
//! ledger untouched.  The check order of every operation is part of its
//! contract, written down as a spec function beside it.

use vstd::pervasive::VecAdditionalExecFns;
use vstd::prelude::*;
use vstd::string::StrSliceExecFns;
use vstd::string::StringExecFns;

use crate::errors::VotingError;
use crate::events::{
    is_proposal_registered, is_session_created, is_status_changed, is_votes_tallied, Notification,
};
use crate::global::{next_session_id, GlobalAccount};
use crate::ledger::SessionLedger;
use crate::proposal::{
    ProposalAccount, ProposalRegistered, BLANK_PROPOSAL_ID, PROPOSAL_DESCRIPTION_MAX_LEN,
};
use crate::tally::{
    blank_votes, compute_tally, lemma_count_voted_missing_one, lemma_count_voted_update,
    lemma_elem_le_sum_votes, lemma_sum_votes_update, lemma_votes_for_push,
    lemma_votes_for_unreferenced, lemma_votes_for_update, sum_votes, vote_contrib, votes_for,
    winning_ids,
};
use crate::voter::{Voted, VoterAccount, VoterRegistered};
use crate::voting_session::{
    phase_step, SessionAccount, SessionCreated, SessionResult, SessionWorkflowStatus,
    SessionWorkflowStatusChanged, VotesTallied, DESCRIPTION_MAX_LEN, NAME_MAX_LEN,
};

verus! {

/// Admin-gated status transitions reject, in this order, a caller other
/// than the session administrator, then a session not in the required
/// status.
pub open spec fn admin_status_check(
    l: SessionLedger,
    caller: u64,
    required: SessionWorkflowStatus,
) -> Option<VotingError> {
    if caller != l.session.admin {
        Some(VotingError::Unauthorized)
    } else if l.session.status != required {
        Some(VotingError::InvalidPhase)
    } else {
        None
    }
}

/// Creates a new session: assigns the next identifier from the global
/// registry, stores the session in status `RegisteringVoters` with the
/// caller as administrator and zeroed counters, and emits the
/// status-changed and session-created notifications.  Rejects a name or
/// description over its length bound, leaving the registry untouched.
pub fn create_voting_session(
    global: &mut GlobalAccount,
    creator: u64,
    name: String,
    description: String,
) -> (r: Result<SessionLedger, VotingError>)
    requires
        old(global).session_count < u64::MAX,
    ensures
        match r {
            Ok(l) => {
                &&& name@.len() <= NAME_MAX_LEN
                &&& description@.len() <= DESCRIPTION_MAX_LEN
                &&& l.wf()
                &&& l.session.session_id == old(global).session_count
                &&& l.session.admin == creator
                &&& l.session.name@ == name@
                &&& l.session.description@ == description@
                &&& l.session.status == SessionWorkflowStatus::RegisteringVoters
                &&& l.session.voters_count == 0
                &&& l.session.proposals_count == 0
                &&& l.voters@.len() == 0
                &&& l.proposals@.len() == 0
                &&& l.events@.len() == 2
                &&& is_status_changed(
                    l.events@[0],
                    l.session.session_id,
                    SessionWorkflowStatus::Unset,
                    SessionWorkflowStatus::RegisteringVoters,
                )
                &&& is_session_created(
                    l.events@[1],
                    l.session.session_id,
                    name@,
                    description@,
                )
                &&& final(global).session_count == old(global).session_count + 1
            },
            Err(e) => {
                &&& e == VotingError::ValidationError
                &&& (name@.len() > NAME_MAX_LEN || description@.len() > DESCRIPTION_MAX_LEN)
                &&& *final(global) == *old(global)
            },
        },
{
    if name.as_str().unicode_len() > NAME_MAX_LEN || description.as_str().unicode_len()
        > DESCRIPTION_MAX_LEN {
        return Err(VotingError::ValidationError);
    }
    let session_id = next_session_id(global);
    let session = SessionAccount {
        session_id,
        name: name.clone(),
        description: description.clone(),
        status: SessionWorkflowStatus::RegisteringVoters,
        admin: creator,
        voters_count: 0,
        proposals_count: 0,
        result: SessionResult {
            total_votes: 0,
            blank_votes: 0,
            abstention: 0,
            winning_proposals: Vec::new(),
        },
    };
    let mut events: Vec<Notification> = Vec::new();
    events.push(
        Notification::SessionWorkflowStatusChanged(
            SessionWorkflowStatusChanged {
                session_id,
                previous_status: SessionWorkflowStatus::Unset,
                current_status: SessionWorkflowStatus::RegisteringVoters,
            },
        ),
    );
    events.push(Notification::SessionCreated(SessionCreated { session_id, name, description }));
    Ok(SessionLedger { session, voters: Vec::new(), proposals: Vec::new(), events })
}

/// What `register_voter` rejects, in check order: a caller other than
/// the administrator, the administrator itself as the voter to admit
/// (in every status, ahead of the status gate), a session past voter
/// registration, and an identity that already holds a voter record.
pub open spec fn register_voter_check(
    l: SessionLedger,
    caller: u64,
    voter: u64,
) -> Option<VotingError> {
    if caller != l.session.admin {
        Some(VotingError::Unauthorized)
    } else if voter == l.session.admin {
        Some(VotingError::AdminCannotBeVoter)
    } else if l.session.status != SessionWorkflowStatus::RegisteringVoters {
        Some(VotingError::InvalidPhase)
    } else if l.has_voter(voter) {
        Some(VotingError::AlreadyRegistered)
    } else {
        None
    }
}

/// Admits `voter` to the session: creates its voter record with the
/// next 1-based ordinal and no vote cast, increments the session's
/// voter count, and emits the voter-registered notification.  On any
/// failed check the documented error comes back and nothing changes.
pub fn register_voter(ledger: &mut SessionLedger, caller: u64, voter: u64) -> (r: Result<
    VoterAccount,
    VotingError,
>)
    requires
        old(ledger).wf(),
        old(ledger).session.voters_count < u32::MAX,
    ensures
        final(ledger).wf(),
        phase_step(old(ledger).session.status, final(ledger).session.status),
        match register_voter_check(*old(ledger), caller, voter) {
            Some(e) => r == Err::<VoterAccount, VotingError>(e) && *final(ledger) == *old(ledger),
            None => {
                let rec = VoterAccount {
                    session_id: old(ledger).session.session_id,
                    voter,
                    voter_id: (old(ledger).session.voters_count + 1) as u32,
                    has_voted: false,
                    voted_proposal_id: 0,
                    nb_proposals: 0,
                };
                &&& r == Ok::<VoterAccount, VotingError>(rec)
                &&& final(ledger).voters@ == old(ledger).voters@.push(rec)
                &&& final(ledger).session == (SessionAccount {
                    voters_count: (old(ledger).session.voters_count + 1) as u32,
                    ..old(ledger).session
                })
                &&& final(ledger).proposals@ == old(ledger).proposals@
                &&& final(ledger).events@ == old(ledger).events@.push(
                    Notification::VoterRegistered(
                        VoterRegistered { session_id: old(ledger).session.session_id, voter },
                    ),
                )
            },
        },
{
    if caller != ledger.session.admin {
        return Err(VotingError::Unauthorized);
    }
    if voter == ledger.session.admin {
        return Err(VotingError::AdminCannotBeVoter);
    }
    if ledger.session.status != SessionWorkflowStatus::RegisteringVoters {
        return Err(VotingError::InvalidPhase);
    }
    if ledger.find_voter(voter).is_some() {
        return Err(VotingError::AlreadyRegistered);
    }
    let rec = VoterAccount {
        session_id: ledger.session.session_id,
        voter,
        voter_id: ledger.session.voters_count + 1,
        has_voted: false,
        voted_proposal_id: 0,
        nb_proposals: 0,
    };
    ledger.voters.push(rec);
    ledger.session.voters_count = ledger.session.voters_count + 1;
    ledger.events.push(
        Notification::VoterRegistered(
            VoterRegistered { session_id: ledger.session.session_id, voter },
        ),
    );
    proof {
        assert(ledger.voters@.drop_last() =~= old(ledger).voters@);
        assert forall|k: int| 0 <= k < ledger.proposals@.len() implies #[trigger] ledger.proposals@[k].vote_count
            == votes_for(ledger.voters@, (k + 1) as u8) by {
            lemma_votes_for_push(old(ledger).voters@, rec, (k + 1) as u8);
        }
    }
    Ok(rec)
}

/// Shared tail of proposal registration: stores a new proposal record
/// with no votes yet and emits the proposal-registered notification.
/// The callers have already validated the id, the proposer and the
/// description.
pub fn register_internal_proposal(
    proposals: &mut Vec<ProposalAccount>,
    events: &mut Vec<Notification>,
    session_id: u64,
    proposer: u64,
    proposal_id: u8,
    description: String,
)
    ensures
        final(proposals)@ == old(proposals)@.push(
            ProposalAccount { session_id, proposal_id, description, proposer, vote_count: 0 },
        ),
        final(events)@ == old(events)@.push(
            Notification::ProposalRegistered(
                ProposalRegistered { session_id, proposal_id, description },
            ),
        ),
{
    let event_description = description.clone();
    proposals.push(
        ProposalAccount { session_id, proposal_id, description, proposer, vote_count: 0 },
    );
    events.push(
        Notification::ProposalRegistered(
            ProposalRegistered { session_id, proposal_id, description: event_description },
        ),
    );
}

/// Closes voter registration and opens proposal registration: creates
/// the reserved blank proposal as the session's first proposal record,
/// authored by the administrator, and advances the status, emitting the
/// proposal-registered and status-changed notifications.
pub fn start_proposals_registration(ledger: &mut SessionLedger, caller: u64) -> (r: Result<
    (),
    VotingError,
>)
    requires
        old(ledger).wf(),
    ensures
        final(ledger).wf(),
        phase_step(old(ledger).session.status, final(ledger).session.status),
        match admin_status_check(*old(ledger), caller, SessionWorkflowStatus::RegisteringVoters) {
            Some(e) => r == Err::<(), VotingError>(e) && *final(ledger) == *old(ledger),
            None => {
                let sid = old(ledger).session.session_id;
                &&& r == Ok::<(), VotingError>(())
                &&& final(ledger).session == (SessionAccount {
                    status: SessionWorkflowStatus::ProposalsRegistrationStarted,
                    proposals_count: 1,
                    ..old(ledger).session
                })
                &&& final(ledger).voters@ == old(ledger).voters@
                &&& final(ledger).proposals@.len() == 1
                &&& final(ledger).proposals@[0].session_id == sid
                &&& final(ledger).proposals@[0].proposal_id == BLANK_PROPOSAL_ID
                &&& final(ledger).proposals@[0].proposer == old(ledger).session.admin
                &&& final(ledger).proposals@[0].vote_count == 0
                &&& final(ledger).proposals@[0].description@ == "blank"@
                &&& final(ledger).events@.len() == old(ledger).events@.len() + 2
                &&& final(ledger).events@.take(old(ledger).events@.len() as int) == old(
                    ledger,
                ).events@
                &&& is_proposal_registered(
                    final(ledger).events@[old(ledger).events@.len() as int],
                    sid,
                    BLANK_PROPOSAL_ID,
                    "blank"@,
                )
                &&& is_status_changed(
                    final(ledger).events@[old(ledger).events@.len() as int + 1],
                    sid,
                    SessionWorkflowStatus::RegisteringVoters,
                    SessionWorkflowStatus::ProposalsRegistrationStarted,
                )
            },
        },
{
    if caller != ledger.session.admin {
        return Err(VotingError::Unauthorized);
    }
    if ledger.session.status != SessionWorkflowStatus::RegisteringVoters {
        return Err(VotingError::InvalidPhase);
    }
    proof {
        reveal_strlit("blank");
    }
    let blank_description = String::from_str("blank");
    register_internal_proposal(
        &mut ledger.proposals,
        &mut ledger.events,
        ledger.session.session_id,
        ledger.session.admin,
        BLANK_PROPOSAL_ID,
        blank_description,
    );
    ledger.session.proposals_count = 1;
    ledger.session.status = SessionWorkflowStatus::ProposalsRegistrationStarted;
    ledger.events.push(
        Notification::SessionWorkflowStatusChanged(
            SessionWorkflowStatusChanged {
                session_id: ledger.session.session_id,
                previous_status: SessionWorkflowStatus::RegisteringVoters,
                current_status: SessionWorkflowStatus::ProposalsRegistrationStarted,
            },
        ),
    );
    proof {
        assert(ledger.proposals@.drop_last() =~= old(ledger).proposals@);
        assert(ledger.events@.take(old(ledger).events@.len() as int) =~= old(ledger).events@);
        assert forall|k: int| 0 <= k < ledger.proposals@.len() implies #[trigger] ledger.proposals@[k].vote_count
            == votes_for(ledger.voters@, (k + 1) as u8) by {
            let pid = (k + 1) as u8;
            assert forall|j: int| 0 <= j < ledger.voters@.len() implies #[trigger] vote_contrib(
                ledger.voters@[j],
                pid,
            ) == 0 by {
                assert(!old(ledger).voters@[j].has_voted);
            }
            lemma_votes_for_unreferenced(ledger.voters@, pid);
        }
    }
    Ok(())
}

/// What `register_proposal` rejects, in check order: the administrator
/// as caller, a caller with no voter record, a session not open for
/// proposal registration, a description over its length bound, and an
/// exhausted single-byte id space.
pub open spec fn register_proposal_check(
    l: SessionLedger,
    caller: u64,
    description: Seq<char>,
) -> Option<VotingError> {
    if caller == l.session.admin {
        Some(VotingError::AdminCannotPropose)
    } else if !l.has_voter(caller) {
        Some(VotingError::NotARegisteredVoter)
    } else if l.session.status != SessionWorkflowStatus::ProposalsRegistrationStarted {
        Some(VotingError::InvalidPhase)
    } else if description.len() > PROPOSAL_DESCRIPTION_MAX_LEN {
        Some(VotingError::ValidationError)
    } else if l.session.proposals_count == u8::MAX {
        Some(VotingError::TooManyProposals)
    } else {
        None
    }
}

/// Registers a proposal on behalf of the calling voter: the record
/// takes the next free ordinal as id, the session's proposal count and
/// the caller's authored-proposals counter each advance by one, and the
/// proposal-registered notification is emitted.
pub fn register_proposal(ledger: &mut SessionLedger, caller: u64, description: String) -> (r:
    Result<ProposalAccount, VotingError>)
    requires
        old(ledger).wf(),
    ensures
        final(ledger).wf(),
        phase_step(old(ledger).session.status, final(ledger).session.status),
        match register_proposal_check(*old(ledger), caller, description@) {
            Some(e) => r == Err::<ProposalAccount, VotingError>(e) && *final(ledger) == *old(
                ledger,
            ),
            None => {
                let sid = old(ledger).session.session_id;
                let pid = (old(ledger).session.proposals_count + 1) as u8;
                let vk = old(ledger).voter_index(caller);
                &&& r == Ok::<ProposalAccount, VotingError>(
                    ProposalAccount {
                        session_id: sid,
                        proposal_id: pid,
                        description,
                        proposer: caller,
                        vote_count: 0,
                    },
                )
                &&& final(ledger).proposals@ == old(ledger).proposals@.push(
                    ProposalAccount {
                        session_id: sid,
                        proposal_id: pid,
                        description,
                        proposer: caller,
                        vote_count: 0,
                    },
                )
                &&& final(ledger).voters@ == old(ledger).voters@.update(
                    vk,
                    VoterAccount {
                        nb_proposals: (old(ledger).voters@[vk].nb_proposals + 1) as u8,
                        ..old(ledger).voters@[vk]
                    },
                )
                &&& final(ledger).session == (SessionAccount {
                    proposals_count: pid,
                    ..old(ledger).session
                })
                &&& final(ledger).events@ == old(ledger).events@.push(
                    Notification::ProposalRegistered(
                        ProposalRegistered { session_id: sid, proposal_id: pid, description },
                    ),
                )
            },
        },
{
    if caller == ledger.session.admin {
        return Err(VotingError::AdminCannotPropose);
    }
    let vk = match ledger.find_voter(caller) {
        Some(k) => k,
        None => { return Err(VotingError::NotARegisteredVoter) },
    };
    proof {
        ledger.lemma_voter_index_unique(vk as int, caller);
    }
    if ledger.session.status != SessionWorkflowStatus::ProposalsRegistrationStarted {
        return Err(VotingError::InvalidPhase);
    }
    if description.as_str().unicode_len() > PROPOSAL_DESCRIPTION_MAX_LEN {
        return Err(VotingError::ValidationError);
    }
    if ledger.session.proposals_count == u8::MAX {
        return Err(VotingError::TooManyProposals);
    }
    let pid = ledger.session.proposals_count + 1;
    let rec = ProposalAccount {
        session_id: ledger.session.session_id,
        proposal_id: pid,
        description: description.clone(),
        proposer: caller,
        vote_count: 0,
    };
    register_internal_proposal(
        &mut ledger.proposals,
        &mut ledger.events,
        ledger.session.session_id,
        caller,
        pid,
        description,
    );
    ledger.session.proposals_count = pid;
    let v = ledger.voters[vk];
    ledger.voters.set(vk, VoterAccount { nb_proposals: v.nb_proposals + 1, ..v });
    proof {
        assert(ledger.proposals@.drop_last() =~= old(ledger).proposals@);
        let updated_voter = VoterAccount { nb_proposals: (v.nb_proposals + 1) as u8, ..v };
        lemma_count_voted_update(old(ledger).voters@, vk as int, updated_voter);
        assert forall|k: int| 0 <= k < ledger.proposals@.len() implies #[trigger] ledger.proposals@[k].vote_count
            == votes_for(ledger.voters@, (k + 1) as u8) by {
            let pid = (k + 1) as u8;
            lemma_votes_for_update(old(ledger).voters@, vk as int, updated_voter, pid);
            if k == old(ledger).proposals@.len() {
                assert forall|j: int| 0 <= j < ledger.voters@.len() implies #[trigger] vote_contrib(
                    ledger.voters@[j],
                    pid,
                ) == 0 by {
                    assert(ledger.voters@[j].has_voted ==> ledger.voters@[j].voted_proposal_id
                        == old(ledger).voters@[j].voted_proposal_id <= old(
                        ledger,
                    ).proposals@.len());
                }
                lemma_votes_for_unreferenced(ledger.voters@, pid);
            }
        }
    }
    Ok(rec)
}

/// Closes proposal registration: advances the status and emits the
/// status-changed notification; no record other than the session is
/// touched.
pub fn stop_proposals_registration(ledger: &mut SessionLedger, caller: u64) -> (r: Result<
    (),
    VotingError,
>)
    requires
        old(ledger).wf(),
    ensures
        final(ledger).wf(),
        phase_step(old(ledger).session.status, final(ledger).session.status),
        match admin_status_check(
            *old(ledger),
            caller,
            SessionWorkflowStatus::ProposalsRegistrationStarted,
        ) {
            Some(e) => r == Err::<(), VotingError>(e) && *final(ledger) == *old(ledger),
            None => {
                &&& r == Ok::<(), VotingError>(())
                &&& final(ledger).session == (SessionAccount {
                    status: SessionWorkflowStatus::ProposalsRegistrationEnded,
                    ..old(ledger).session
                })
                &&& final(ledger).voters@ == old(ledger).voters@
                &&& final(ledger).proposals@ == old(ledger).proposals@
                &&& final(ledger).events@ == old(ledger).events@.push(
                    Notification::SessionWorkflowStatusChanged(
                        SessionWorkflowStatusChanged {
                            session_id: old(ledger).session.session_id,
                            previous_status: SessionWorkflowStatus::ProposalsRegistrationStarted,
                            current_status: SessionWorkflowStatus::ProposalsRegistrationEnded,
                        },
                    ),
                )
            },
        },
{
    if caller != ledger.session.admin {
        return Err(VotingError::Unauthorized);
    }
    if ledger.session.status != SessionWorkflowStatus::ProposalsRegistrationStarted {
        return Err(VotingError::InvalidPhase);
    }
    ledger.session.status = SessionWorkflowStatus::ProposalsRegistrationEnded;
    ledger.events.push(
        Notification::SessionWorkflowStatusChanged(
            SessionWorkflowStatusChanged {
                session_id: ledger.session.session_id,
                previous_status: SessionWorkflowStatus::ProposalsRegistrationStarted,
                current_status: SessionWorkflowStatus::ProposalsRegistrationEnded,
            },
        ),
    );
    Ok(())
}

/// Opens the voting session: advances the status and emits the
/// status-changed notification; no record other than the session is
/// touched.
pub fn start_voting_session(ledger: &mut SessionLedger, caller: u64) -> (r: Result<
    (),
    VotingError,
>)
    requires
        old(ledger).wf(),
    ensures
        final(ledger).wf(),
        phase_step(old(ledger).session.status, final(ledger).session.status),
        match admin_status_check(
            *old(ledger),
            caller,
            SessionWorkflowStatus::ProposalsRegistrationEnded,
        ) {
            Some(e) => r == Err::<(), VotingError>(e) && *final(ledger) == *old(ledger),
            None => {
                &&& r == Ok::<(), VotingError>(())
                &&& final(ledger).session == (SessionAccount {
                    status: SessionWorkflowStatus::VotingSessionStarted,
                    ..old(ledger).session
                })
                &&& final(ledger).voters@ == old(ledger).voters@
                &&& final(ledger).proposals@ == old(ledger).proposals@
                &&& final(ledger).events@ == old(ledger).events@.push(
                    Notification::SessionWorkflowStatusChanged(
                        SessionWorkflowStatusChanged {
                            session_id: old(ledger).session.session_id,
                            previous_status: SessionWorkflowStatus::ProposalsRegistrationEnded,
                            current_status: SessionWorkflowStatus::VotingSessionStarted,
                        },
                    ),
                )
            },
        },
{
    if caller != ledger.session.admin {
        return Err(VotingError::Unauthorized);
    }
    if ledger.session.status != SessionWorkflowStatus::ProposalsRegistrationEnded {
        return Err(VotingError::InvalidPhase);
    }
    ledger.session.status = SessionWorkflowStatus::VotingSessionStarted;
    ledger.events.push(
        Notification::SessionWorkflowStatusChanged(
            SessionWorkflowStatusChanged {
                session_id: ledger.session.session_id,
                previous_status: SessionWorkflowStatus::ProposalsRegistrationEnded,
                current_status: SessionWorkflowStatus::VotingSessionStarted,
            },
        ),
    );
    Ok(())
}

/// What `vote` rejects, in check order: the administrator as caller
/// (in every status, ahead of the status gate), a session not open for
/// voting, a caller with no voter record, and a caller who has already
/// voted.
pub open spec fn vote_check(l: SessionLedger, caller: u64) -> Option<VotingError> {
    if caller == l.session.admin {
        Some(VotingError::AdminCannotVote)
    } else if l.session.status != SessionWorkflowStatus::VotingSessionStarted {
        Some(VotingError::InvalidPhase)
    } else if !l.has_voter(caller) {
        Some(VotingError::NotARegisteredVoter)
    } else if l.voters@[l.voter_index(caller)].has_voted {
        Some(VotingError::AlreadyVoted)
    } else {
        None
    }
}

/// Casts the calling voter's single vote for the proposal with id
/// `proposal_id`: marks the voter record voted with that id as its
/// back-reference, increments the proposal's vote count by exactly one,
/// and emits the vote-cast notification.  Voting for the blank proposal
/// is the designated blank vote.
pub fn vote(ledger: &mut SessionLedger, caller: u64, proposal_id: u8) -> (r: Result<
    (),
    VotingError,
>)
    requires
        old(ledger).wf(),
        1 <= proposal_id && proposal_id <= old(ledger).session.proposals_count,
    ensures
        final(ledger).wf(),
        phase_step(old(ledger).session.status, final(ledger).session.status),
        match vote_check(*old(ledger), caller) {
            Some(e) => r == Err::<(), VotingError>(e) && *final(ledger) == *old(ledger),
            None => {
                let vk = old(ledger).voter_index(caller);
                let pj = proposal_id - 1;
                &&& r == Ok::<(), VotingError>(())
                &&& final(ledger).voters@ == old(ledger).voters@.update(
                    vk,
                    VoterAccount {
                        has_voted: true,
                        voted_proposal_id: proposal_id,
                        ..old(ledger).voters@[vk]
                    },
                )
                &&& final(ledger).proposals@ == old(ledger).proposals@.update(
                    pj as int,
                    ProposalAccount {
                        vote_count: (old(ledger).proposals@[pj as int].vote_count + 1) as u32,
                        ..old(ledger).proposals@[pj as int]
                    },
                )
                &&& final(ledger).session == old(ledger).session
                &&& final(ledger).events@ == old(ledger).events@.push(
                    Notification::Voted(
                        Voted {
                            session_id: old(ledger).session.session_id,
                            proposal_id,
                            voter: caller,
                        },
                    ),
                )
            },
        },
{
    if caller == ledger.session.admin {
        return Err(VotingError::AdminCannotVote);
    }
    if ledger.session.status != SessionWorkflowStatus::VotingSessionStarted {
        return Err(VotingError::InvalidPhase);
    }
    let vk = match ledger.find_voter(caller) {
        Some(k) => k,
        None => { return Err(VotingError::NotARegisteredVoter) },
    };
    proof {
        ledger.lemma_voter_index_unique(vk as int, caller);
    }
    let v = ledger.voters[vk];
    if v.has_voted {
        return Err(VotingError::AlreadyVoted);
    }
    let j = (proposal_id - 1) as usize;
    proof {
        lemma_elem_le_sum_votes(ledger.proposals@, j as int);
        lemma_count_voted_missing_one(ledger.voters@, vk as int);
    }
    ledger.voters.set(vk, VoterAccount { has_voted: true, voted_proposal_id: proposal_id, ..v });
    let mut p = ledger.proposals.remove(j);
    p.vote_count = p.vote_count + 1;
    ledger.proposals.insert(j, p);
    ledger.events.push(
        Notification::Voted(
            Voted { session_id: ledger.session.session_id, proposal_id, voter: caller },
        ),
    );
    proof {
        let updated_voter = VoterAccount {
            has_voted: true,
            voted_proposal_id: proposal_id,
            ..old(ledger).voters@[vk as int]
        };
        let updated_proposal = ProposalAccount {
            vote_count: (old(ledger).proposals@[j as int].vote_count + 1) as u32,
            ..old(ledger).proposals@[j as int]
        };
        assert(ledger.proposals@ =~= old(ledger).proposals@.update(j as int, updated_proposal));
        lemma_count_voted_update(old(ledger).voters@, vk as int, updated_voter);
        lemma_sum_votes_update(old(ledger).proposals@, j as int, updated_proposal);
        assert forall|k: int| 0 <= k < ledger.proposals@.len() implies #[trigger] ledger.proposals@[k].vote_count
            == votes_for(ledger.voters@, (k + 1) as u8) by {
            let pid = (k + 1) as u8;
            lemma_votes_for_update(old(ledger).voters@, vk as int, updated_voter, pid);
        }
    }
    Ok(())
}

/// Closes the voting session: advances the status and emits the
/// status-changed notification; no record other than the session is
/// touched.
pub fn stop_voting_session(ledger: &mut SessionLedger, caller: u64) -> (r: Result<
    (),
    VotingError,
>)
    requires
        old(ledger).wf(),
    ensures
        final(ledger).wf(),
        phase_step(old(ledger).session.status, final(ledger).session.status),
        match admin_status_check(*old(ledger), caller, SessionWorkflowStatus::VotingSessionStarted) {
            Some(e) => r == Err::<(), VotingError>(e) && *final(ledger) == *old(ledger),
            None => {
                &&& r == Ok::<(), VotingError>(())
                &&& final(ledger).session == (SessionAccount {
                    status: SessionWorkflowStatus::VotingSessionEnded,
                    ..old(ledger).session
                })
                &&& final(ledger).voters@ == old(ledger).voters@
                &&& final(ledger).proposals@ == old(ledger).proposals@
                &&& final(ledger).events@ == old(ledger).events@.push(
                    Notification::SessionWorkflowStatusChanged(
                        SessionWorkflowStatusChanged {
                            session_id: old(ledger).session.session_id,
                            previous_status: SessionWorkflowStatus::VotingSessionStarted,
                            current_status: SessionWorkflowStatus::VotingSessionEnded,
                        },
                    ),
                )
            },
        },
{
    if caller != ledger.session.admin {
        return Err(VotingError::Unauthorized);
    }
    if ledger.session.status != SessionWorkflowStatus::VotingSessionStarted {
        return Err(VotingError::InvalidPhase);
    }
    ledger.session.status = SessionWorkflowStatus::VotingSessionEnded;
    ledger.events.push(
        Notification::SessionWorkflowStatusChanged(
            SessionWorkflowStatusChanged {
                session_id: ledger.session.session_id,
                previous_status: SessionWorkflowStatus::VotingSessionStarted,
                current_status: SessionWorkflowStatus::VotingSessionEnded,
            },
        ),
    );
    Ok(())
}

/// Copies a winner-id list so the tally can both store it on the
/// session and carry it in the tally-completed notification.
fn copy_winner_ids(v: &Vec<u8>) -> (r: Vec<u8>)
    ensures
        r@ == v@,
{
    let n = v.len();
    let mut r: Vec<u8> = Vec::new();
    let mut i: usize = 0;
    while i < n
        invariant
            n == v@.len(),
            i <= n,
            r@ == v@.take(i as int),
        decreases n - i,
    {
        r.push(v[i]);
        proof {
            assert(v@.take(i + 1) =~= v@.take(i as int).push(v@[i as int]));
        }
        i = i + 1;
    }
    proof {
        assert(v@.take(n as int) =~= v@);
    }
    r
}

/// What `tally_votes` rejects, in check order: a caller other than the
/// administrator, a session whose voting has not ended, and a supplied
/// proposal set whose size differs from the session's proposal count.
pub open spec fn tally_votes_check(
    l: SessionLedger,
    caller: u64,
    supplied: Seq<ProposalAccount>,
) -> Option<VotingError> {
    if caller != l.session.admin {
        Some(VotingError::Unauthorized)
    } else if l.session.status != SessionWorkflowStatus::VotingSessionEnded {
        Some(VotingError::InvalidPhase)
    } else if supplied.len() != l.session.proposals_count {
        Some(VotingError::IncompleteProposalSet)
    } else {
        None
    }
}

/// Tallies the session: runs the tally engine over the supplied
/// proposal set and the session's voter count, stores the outcome on
/// the session, advances it to its terminal status, and emits the
/// tally-completed and status-changed notifications.
///
/// The caller is trusted to supply the session's complete,
/// non-overlapping proposal set — the blank proposal included — and
/// only its size is checked; a wrong set of the right size silently
/// yields a wrong abstention figure.  Beyond the size check, the
/// supplied set must not carry more votes than the session has voters
/// (the session's own records never do).
pub fn tally_votes(ledger: &mut SessionLedger, caller: u64, proposals: &Vec<ProposalAccount>) -> (r:
    Result<(), VotingError>)
    requires
        old(ledger).wf(),
        tally_votes_check(*old(ledger), caller, proposals@) is None ==> sum_votes(proposals@) <= old(
            ledger,
        ).session.voters_count,
    ensures
        final(ledger).wf(),
        phase_step(old(ledger).session.status, final(ledger).session.status),
        match tally_votes_check(*old(ledger), caller, proposals@) {
            Some(e) => r == Err::<(), VotingError>(e) && *final(ledger) == *old(ledger),
            None => {
                let sid = old(ledger).session.session_id;
                let total = sum_votes(proposals@);
                &&& r == Ok::<(), VotingError>(())
                &&& final(ledger).session.status == SessionWorkflowStatus::VotesTallied
                &&& final(ledger).session.result.total_votes == total
                &&& final(ledger).session.result.blank_votes == blank_votes(proposals@)
                &&& final(ledger).session.result.abstention == old(
                    ledger,
                ).session.voters_count - total
                &&& final(ledger).session.result.winning_proposals@ == winning_ids(proposals@)
                &&& final(ledger).session.session_id == sid
                &&& final(ledger).session.admin == old(ledger).session.admin
                &&& final(ledger).session.name == old(ledger).session.name
                &&& final(ledger).session.description == old(ledger).session.description
                &&& final(ledger).session.voters_count == old(ledger).session.voters_count
                &&& final(ledger).session.proposals_count == old(ledger).session.proposals_count
                &&& final(ledger).voters@ == old(ledger).voters@
                &&& final(ledger).proposals@ == old(ledger).proposals@
                &&& final(ledger).events@.len() == old(ledger).events@.len() + 2
                &&& final(ledger).events@.take(old(ledger).events@.len() as int) == old(
                    ledger,
                ).events@
                &&& is_votes_tallied(
                    final(ledger).events@[old(ledger).events@.len() as int],
                    sid,
                    old(ledger).session.voters_count,
                    final(ledger).session.result.total_votes,
                    final(ledger).session.result.blank_votes,
                    final(ledger).session.result.abstention,
                    winning_ids(proposals@),
                )
                &&& is_status_changed(
                    final(ledger).events@[old(ledger).events@.len() as int + 1],
                    sid,
                    SessionWorkflowStatus::VotingSessionEnded,
                    SessionWorkflowStatus::VotesTallied,
                )
            },
        },
{
    if caller != ledger.session.admin {
        return Err(VotingError::Unauthorized);
    }
    if ledger.session.status != SessionWorkflowStatus::VotingSessionEnded {
        return Err(VotingError::InvalidPhase);
    }
    if proposals.len() != ledger.session.proposals_count as usize {
        return Err(VotingError::IncompleteProposalSet);
    }
    let result = compute_tally(proposals, ledger.session.voters_count);
    let winners_for_event = copy_winner_ids(&result.winning_proposals);
    ledger.events.push(
        Notification::VotesTallied(
            VotesTallied {
                session_id: ledger.session.session_id,
                voters_count: ledger.session.voters_count,
                total_votes: result.total_votes,
                blank_votes: result.blank_votes,
                abstention: result.abstention,
                winning_proposals: winners_for_event,
            },
        ),
    );
    ledger.events.push(
        Notification::SessionWorkflowStatusChanged(
            SessionWorkflowStatusChanged {
                session_id: ledger.session.session_id,
                previous_status: SessionWorkflowStatus::VotingSessionEnded,
                current_status: SessionWorkflowStatus::VotesTallied,
            },
        ),
    );
    ledger.session.result = result;
    ledger.session.status = SessionWorkflowStatus::VotesTallied;
    proof {
        assert(ledger.events@.take(old(ledger).events@.len() as int) =~= old(ledger).events@);
    }
    Ok(())
}

} // verus!

//! One session's complete record set.
//!
//! The persistence substrate stores records under derived composite
//! keys; here that store is a ledger value owning the session record,
//! its voter and proposal records, and the notifications emitted so
//! far.  Key uniqueness becomes the ledger's well-formedness invariant:
//! voter identities are distinct, ordinals and proposal ids are dense,
//! and every operation both assumes and preserves [`SessionLedger::wf`].

use vstd::prelude::*;

use crate::events::Notification;
use crate::proposal::{ProposalAccount, PROPOSAL_DESCRIPTION_MAX_LEN};
use crate::tally::{count_voted, sum_votes, votes_for};
use crate::voter::VoterAccount;
use crate::voting_session::{
    status_rank, SessionAccount, SessionWorkflowStatus, DESCRIPTION_MAX_LEN, NAME_MAX_LEN,
};

verus! {

/// All stored records of one voting session, plus the notifications its
/// operations have emitted, in order.
#[derive(Debug)]
pub struct SessionLedger {
    /// The session record itself.
    pub session: SessionAccount,
    /// Voter records, in registration order: the record at index `k`
    /// holds ordinal `k + 1`.
    pub voters: Vec<VoterAccount>,
    /// Proposal records, in id order: the record at index `k` holds
    /// proposal id `k + 1`, the blank proposal first.
    pub proposals: Vec<ProposalAccount>,
    /// Every notification emitted so far, oldest first.
    pub events: Vec<Notification>,
}

impl SessionLedger {
    /// A voter record for identity `who` exists in this session.
    pub open spec fn has_voter(self, who: u64) -> bool {
        exists|k: int| 0 <= k < self.voters@.len() && #[trigger] self.voters@[k].voter == who
    }

    /// Index of the voter record of identity `who`; meaningful only
    /// when [`Self::has_voter`] holds (and then unique, by
    /// well-formedness).
    pub open spec fn voter_index(self, who: u64) -> int {
        choose|k: int| 0 <= k < self.voters@.len() && #[trigger] self.voters@[k].voter == who
    }

    /// The voter records are exactly the admitted voters, in
    /// registration order: the count matches, ordinals are dense,
    /// identities are distinct, the administrator is never among them,
    /// and a cast vote points at an existing proposal.
    pub open spec fn voters_ok(self) -> bool {
        &&& self.session.voters_count == self.voters@.len()
        &&& forall|k: int|
            #![trigger self.voters@[k]]
            0 <= k < self.voters@.len() ==> {
                &&& self.voters@[k].session_id == self.session.session_id
                &&& self.voters@[k].voter_id == k + 1
                &&& self.voters@[k].voter != self.session.admin
                &&& self.voters@[k].nb_proposals <= self.proposals@.len()
                &&& (self.voters@[k].has_voted ==> 1 <= self.voters@[k].voted_proposal_id
                    <= self.proposals@.len())
                &&& (!self.voters@[k].has_voted ==> self.voters@[k].voted_proposal_id == 0)
            }
        &&& forall|k: int, j: int|
            #![trigger self.voters@[k], self.voters@[j]]
            0 <= k < j < self.voters@.len() ==> self.voters@[k].voter != self.voters@[j].voter
    }

    /// The proposal records are exactly the registered proposals, in id
    /// order: the count matches, ids are dense within the single-byte
    /// space, descriptions are bounded, none exist before proposal
    /// registration opens, and the blank proposal opens the list from
    /// then on.
    pub open spec fn proposals_ok(self) -> bool {
        &&& self.session.proposals_count == self.proposals@.len()
        &&& self.proposals@.len() <= u8::MAX
        &&& forall|k: int|
            #![trigger self.proposals@[k]]
            0 <= k < self.proposals@.len() ==> {
                &&& self.proposals@[k].session_id == self.session.session_id
                &&& self.proposals@[k].proposal_id == k + 1
                &&& self.proposals@[k].description@.len() <= PROPOSAL_DESCRIPTION_MAX_LEN
            }
        &&& (self.session.status == SessionWorkflowStatus::RegisteringVoters
            ==> self.proposals@.len() == 0)
        &&& (status_rank(self.session.status) >= 2 ==> self.proposals@.len() >= 1
            && self.proposals@[0].proposer == self.session.admin)
    }

    /// Well-formedness of the whole ledger.  Created sessions satisfy
    /// it and every operation preserves it; in particular the vote
    /// counts accumulated on proposals always account for exactly the
    /// voters marked as having voted, and the tally result stays
    /// zero/empty until the session reaches its terminal status.
    pub open spec fn wf(self) -> bool {
        &&& self.session.name@.len() <= NAME_MAX_LEN
        &&& self.session.description@.len() <= DESCRIPTION_MAX_LEN
        &&& status_rank(self.session.status) >= 1
        &&& self.voters_ok()
        &&& self.proposals_ok()
        &&& count_voted(self.voters@) == sum_votes(self.proposals@)
        &&& forall|k: int|
            #![trigger self.proposals@[k]]
            0 <= k < self.proposals@.len() ==> self.proposals@[k].vote_count == votes_for(
                self.voters@,
                (k + 1) as u8,
            )
        &&& (status_rank(self.session.status) < status_rank(SessionWorkflowStatus::VotesTallied)
            ==> {
            &&& self.session.result.total_votes == 0
            &&& self.session.result.blank_votes == 0
            &&& self.session.result.abstention == 0
            &&& self.session.result.winning_proposals@.len() == 0
        })
    }

    /// With distinct voter identities, an index holding `who` is the
    /// one [`Self::voter_index`] denotes.
    pub proof fn lemma_voter_index_unique(self, k: int, who: u64)
        requires
            self.voters_ok(),
            0 <= k < self.voters@.len(),
            self.voters@[k].voter == who,
        ensures
            self.has_voter(who),
            self.voter_index(who) == k,
    {
        assert(self.has_voter(who));
        let k0 = self.voter_index(who);
        if k0 < k {
            assert(self.voters@[k0].voter != self.voters@[k].voter);
        } else if k0 > k {
            assert(self.voters@[k].voter != self.voters@[k0].voter);
        }
    }

    /// Looks the voter record of identity `who` up by linear scan, as
    /// the substrate would by derived key.
    pub fn find_voter(&self, who: u64) -> (r: Option<usize>)
        ensures
            match r {
                Some(k) => k < self.voters@.len() && self.voters@[k as int].voter == who,
                None => !self.has_voter(who),
            },
    {
        let n = self.voters.len();
        let mut i: usize = 0;
        while i < n
            invariant
                n == self.voters@.len(),
                i <= n,
                forall|j: int| 0 <= j < i ==> #[trigger] self.voters@[j].voter != who,
            decreases n - i,
        {
            if self.voters[i].voter == who {
                return Some(i);
            }
            i = i + 1;
        }
        None
    }
}

} // verus!

//! The tally engine: a pure function over a session's closed proposal
//! set and its voter count.
//!
//! Abstention is derived, not declared: a registered voter who never
//! cast a vote is counted at tally time as the difference between the
//! voter count and the votes accounted for in the supplied set.  The
//! figure is exact only when the caller supplies the complete,
//! non-overlapping proposal set of the session.

use vstd::prelude::*;

use crate::proposal::{ProposalAccount, BLANK_PROPOSAL_ID};
use crate::voter::VoterAccount;
use crate::voting_session::SessionResult;

verus! {

/// Sum of the vote counts of all proposals in `s`.
pub open spec fn sum_votes(s: Seq<ProposalAccount>) -> int
    decreases s.len(),
{
    if s.len() == 0 {
        0
    } else {
        sum_votes(s.drop_last()) + s.last().vote_count
    }
}

/// Sum of the vote counts of the blank entries of `s`.
pub open spec fn blank_votes(s: Seq<ProposalAccount>) -> int
    decreases s.len(),
{
    if s.len() == 0 {
        0
    } else {
        blank_votes(s.drop_last()) + if s.last().proposal_id == BLANK_PROPOSAL_ID {
            s.last().vote_count as int
        } else {
            0
        }
    }
}

/// Highest vote count among the non-blank entries of `s`; 0 when there
/// is none.
pub open spec fn max_nonblank_votes(s: Seq<ProposalAccount>) -> int
    decreases s.len(),
{
    if s.len() == 0 {
        0
    } else {
        let m = max_nonblank_votes(s.drop_last());
        if s.last().proposal_id != BLANK_PROPOSAL_ID && s.last().vote_count > m {
            s.last().vote_count as int
        } else {
            m
        }
    }
}

/// Ids of the non-blank entries of `s` whose vote count equals `m`, in
/// the order they stand in `s`; empty when `m` is not positive.
pub open spec fn winners_with(s: Seq<ProposalAccount>, m: int) -> Seq<u8>
    decreases s.len(),
{
    if s.len() == 0 {
        Seq::empty()
    } else {
        winners_with(s.drop_last(), m) + if s.last().proposal_id != BLANK_PROPOSAL_ID && m > 0
            && s.last().vote_count == m {
            seq![s.last().proposal_id]
        } else {
            Seq::empty()
        }
    }
}

/// The winner set of proposal set `s`: every non-blank id tied for the
/// highest vote count, in the order the entries stand in `s`; empty when
/// no non-blank entry received a vote.
pub open spec fn winning_ids(s: Seq<ProposalAccount>) -> Seq<u8> {
    winners_with(s, max_nonblank_votes(s))
}

/// Number of voters in `s` who have cast their vote.
pub open spec fn count_voted(s: Seq<VoterAccount>) -> int
    decreases s.len(),
{
    if s.len() == 0 {
        0
    } else {
        count_voted(s.drop_last()) + if s.last().has_voted {
            1int
        } else {
            0int
        }
    }
}

/// What voter record `v` contributes to proposal id `pid`: one vote if
/// its recorded choice is `pid`, none otherwise.
pub open spec fn vote_contrib(v: VoterAccount, pid: u8) -> int {
    if v.has_voted && v.voted_proposal_id == pid {
        1
    } else {
        0
    }
}

/// Number of voters in `s` whose recorded choice is proposal id `pid`.
pub open spec fn votes_for(s: Seq<VoterAccount>, pid: u8) -> int
    decreases s.len(),
{
    if s.len() == 0 {
        0
    } else {
        votes_for(s.drop_last(), pid) + vote_contrib(s.last(), pid)
    }
}

/// Appending a voter record adds exactly its contribution.
pub proof fn lemma_votes_for_push(s: Seq<VoterAccount>, v: VoterAccount, pid: u8)
    ensures
        votes_for(s.push(v), pid) == votes_for(s, pid) + vote_contrib(v, pid),
{
    assert(s.push(v).drop_last() =~= s);
}

/// Replacing one voter record changes the backing count by the
/// difference of the two contributions.
pub proof fn lemma_votes_for_update(s: Seq<VoterAccount>, i: int, v: VoterAccount, pid: u8)
    requires
        0 <= i < s.len(),
    ensures
        votes_for(s.update(i, v), pid) == votes_for(s, pid) - vote_contrib(s[i], pid)
            + vote_contrib(v, pid),
    decreases s.len(),
{
    let t = s.update(i, v);
    if i == s.len() - 1 {
        assert(t.drop_last() =~= s.drop_last());
    } else {
        assert(t.drop_last() =~= s.drop_last().update(i, v));
        lemma_votes_for_update(s.drop_last(), i, v, pid);
    }
}

/// A proposal id no voter's choice points at is backed by no votes.
pub proof fn lemma_votes_for_unreferenced(s: Seq<VoterAccount>, pid: u8)
    requires
        forall|k: int| 0 <= k < s.len() ==> #[trigger] vote_contrib(s[k], pid) == 0,
    ensures
        votes_for(s, pid) == 0,
    decreases s.len(),
{
    if s.len() > 0 {
        assert forall|k: int| 0 <= k < s.drop_last().len() implies #[trigger] vote_contrib(
            s.drop_last()[k],
            pid,
        ) == 0 by {
            assert(s.drop_last()[k] == s[k]);
        }
        lemma_votes_for_unreferenced(s.drop_last(), pid);
    }
}

/// A vote-count sum is never negative.
pub proof fn lemma_sum_votes_nonneg(s: Seq<ProposalAccount>)
    ensures
        0 <= sum_votes(s),
    decreases s.len(),
{
    if s.len() > 0 {
        lemma_sum_votes_nonneg(s.drop_last());
    }
}

/// Blank votes are part of the overall sum: `0 <= blank <= sum`.
pub proof fn lemma_blank_votes_le_sum(s: Seq<ProposalAccount>)
    ensures
        0 <= blank_votes(s),
        blank_votes(s) <= sum_votes(s),
    decreases s.len(),
{
    if s.len() > 0 {
        lemma_blank_votes_le_sum(s.drop_last());
    }
}

/// Replacing one entry changes the sum by the difference of the two
/// vote counts.
pub proof fn lemma_sum_votes_update(s: Seq<ProposalAccount>, i: int, p: ProposalAccount)
    requires
        0 <= i < s.len(),
    ensures
        sum_votes(s.update(i, p)) == sum_votes(s) - s[i].vote_count + p.vote_count,
    decreases s.len(),
{
    let t = s.update(i, p);
    if i == s.len() - 1 {
        assert(t.drop_last() =~= s.drop_last());
    } else {
        assert(t.drop_last() =~= s.drop_last().update(i, p));
        lemma_sum_votes_update(s.drop_last(), i, p);
    }
}

/// Each entry's vote count is at most the sum over all entries.
pub proof fn lemma_elem_le_sum_votes(s: Seq<ProposalAccount>, i: int)
    requires
        0 <= i < s.len(),
    ensures
        s[i].vote_count <= sum_votes(s),
    decreases s.len(),
{
    if i == s.len() - 1 {
        lemma_sum_votes_nonneg(s.drop_last());
    } else {
        lemma_elem_le_sum_votes(s.drop_last(), i);
    }
}

/// The sum over a prefix is at most the sum over the whole sequence.
pub proof fn lemma_sum_votes_take_le(s: Seq<ProposalAccount>, j: int)
    requires
        0 <= j <= s.len(),
    ensures
        sum_votes(s.take(j)) <= sum_votes(s),
    decreases s.len(),
{
    if j == s.len() {
        assert(s.take(j) =~= s);
    } else {
        assert(s.take(j) =~= s.drop_last().take(j));
        lemma_sum_votes_take_le(s.drop_last(), j);
    }
}

/// Between none and all of the voters have voted.
pub proof fn lemma_count_voted_bounds(s: Seq<VoterAccount>)
    ensures
        0 <= count_voted(s),
        count_voted(s) <= s.len(),
    decreases s.len(),
{
    if s.len() > 0 {
        lemma_count_voted_bounds(s.drop_last());
    }
}

/// If some voter has not voted, fewer than all have.
pub proof fn lemma_count_voted_missing_one(s: Seq<VoterAccount>, i: int)
    requires
        0 <= i < s.len(),
        !s[i].has_voted,
    ensures
        count_voted(s) <= s.len() - 1,
    decreases s.len(),
{
    if i == s.len() - 1 {
        lemma_count_voted_bounds(s.drop_last());
    } else {
        lemma_count_voted_missing_one(s.drop_last(), i);
    }
}

/// Replacing one voter record changes the voted count by the difference
/// of the two `has_voted` flags.
pub proof fn lemma_count_voted_update(s: Seq<VoterAccount>, i: int, v: VoterAccount)
    requires
        0 <= i < s.len(),
    ensures
        count_voted(s.update(i, v)) == count_voted(s) - (if s[i].has_voted {
            1int
        } else {
            0int
        }) + (if v.has_voted {
            1int
        } else {
            0int
        }),
    decreases s.len(),
{
    let t = s.update(i, v);
    if i == s.len() - 1 {
        assert(t.drop_last() =~= s.drop_last());
    } else {
        assert(t.drop_last() =~= s.drop_last().update(i, v));
        lemma_count_voted_update(s.drop_last(), i, v);
    }
}

/// No non-blank entry beats the non-blank maximum.
pub proof fn lemma_max_nonblank_is_max(s: Seq<ProposalAccount>, k: int)
    requires
        0 <= k < s.len(),
        s[k].proposal_id != BLANK_PROPOSAL_ID,
    ensures
        s[k].vote_count <= max_nonblank_votes(s),
    decreases s.len(),
{
    if k < s.len() - 1 {
        lemma_max_nonblank_is_max(s.drop_last(), k);
    }
}

/// Entry `k` of `s` is a non-blank proposal holding exactly `m` votes,
/// with `m` positive.
pub open spec fn is_tied_entry(s: Seq<ProposalAccount>, k: int, m: int) -> bool {
    &&& 0 <= k < s.len()
    &&& s[k].proposal_id != BLANK_PROPOSAL_ID
    &&& s[k].vote_count == m
    &&& m > 0
}

/// Id `j` of `winners_with(s, m)` belongs to some non-blank entry of
/// `s` holding exactly `m` votes, with `m` positive.
pub proof fn lemma_winners_with_sound(s: Seq<ProposalAccount>, m: int, j: int)
    requires
        0 <= j < winners_with(s, m).len(),
    ensures
        exists|k: int|
            #[trigger] is_tied_entry(s, k, m) && s[k].proposal_id == winners_with(s, m)[j],
    decreases s.len(),
{
    let wp = winners_with(s.drop_last(), m);
    if j < wp.len() {
        assert(winners_with(s, m)[j] == wp[j]);
        lemma_winners_with_sound(s.drop_last(), m, j);
        let k = choose|k: int|
            #[trigger] is_tied_entry(s.drop_last(), k, m) && s.drop_last()[k].proposal_id
                == winners_with(s.drop_last(), m)[j];
        assert(is_tied_entry(s, k, m) && s[k].proposal_id == winners_with(s, m)[j]);
    } else {
        assert(is_tied_entry(s, s.len() - 1, m) && s[s.len() - 1].proposal_id == winners_with(
            s,
            m,
        )[j]);
    }
}

/// Every non-blank entry of `s` holding exactly `m` votes, `m` positive,
/// has its id in `winners_with(s, m)`.
pub proof fn lemma_winners_with_complete(s: Seq<ProposalAccount>, m: int, k: int)
    requires
        0 <= k < s.len(),
        s[k].proposal_id != BLANK_PROPOSAL_ID,
        s[k].vote_count == m,
        m > 0,
    ensures
        winners_with(s, m).contains(s[k].proposal_id),
    decreases s.len(),
{
    let w = winners_with(s, m);
    let wp = winners_with(s.drop_last(), m);
    if k == s.len() - 1 {
        assert(w[wp.len() as int] == s[k].proposal_id);
    } else {
        lemma_winners_with_complete(s.drop_last(), m, k);
        let j = choose|j: int| 0 <= j < wp.len() && wp[j] == s[k].proposal_id;
        assert(w[j] == s[k].proposal_id);
    }
}

/// The winner set of `s` consists of exactly the non-blank ids tied for
/// the highest positive vote count; no winner is the blank proposal, no
/// tied proposal is left out.
pub proof fn lemma_winning_ids_characterized(s: Seq<ProposalAccount>)
    ensures
        forall|j: int| #![trigger winning_ids(s)[j]]
            0 <= j < winning_ids(s).len() ==> exists|k: int|
                #[trigger] is_tied_entry(s, k, max_nonblank_votes(s)) && s[k].proposal_id
                    == winning_ids(s)[j],
        forall|k: int|
            is_tied_entry(s, k, max_nonblank_votes(s)) ==> winning_ids(s).contains(
                #[trigger] s[k].proposal_id,
            ),
{
    let m = max_nonblank_votes(s);
    assert forall|j: int| #![trigger winning_ids(s)[j]] 0 <= j < winning_ids(s).len() implies exists|
        k: int,
    |
        #[trigger] is_tied_entry(s, k, m) && s[k].proposal_id == winning_ids(s)[j] by {
        lemma_winners_with_sound(s, m, j);
    }
    assert forall|k: int| is_tied_entry(s, k, m) implies winning_ids(s).contains(
        #[trigger] s[k].proposal_id,
    ) by {
        lemma_winners_with_complete(s, m, k);
    }
}

/// Tallies a closed proposal set against a session's voter count.
///
/// Every vote in the set counts toward `total_votes`; the blank entry's
/// votes additionally count toward `blank_votes`; the voters not
/// accounted for in the set are the abstentions; the winner set holds
/// every non-blank id tied for the highest positive vote count, in the
/// order the entries stand in `proposals`.
pub fn compute_tally(proposals: &Vec<ProposalAccount>, voters_count: u32) -> (r: SessionResult)
    requires
        sum_votes(proposals@) <= voters_count,
    ensures
        r.total_votes == sum_votes(proposals@),
        r.blank_votes == blank_votes(proposals@),
        r.abstention == voters_count - sum_votes(proposals@),
        r.total_votes + r.abstention == voters_count,
        r.winning_proposals@ == winning_ids(proposals@),
{
    let n = proposals.len();
    let mut total: u32 = 0;
    let mut blank: u32 = 0;
    let mut max_votes: u32 = 0;
    let mut i: usize = 0;
    while i < n
        invariant
            n == proposals@.len(),
            i <= n,
            sum_votes(proposals@) <= voters_count,
            total == sum_votes(proposals@.take(i as int)),
            blank == blank_votes(proposals@.take(i as int)),
            max_votes == max_nonblank_votes(proposals@.take(i as int)),
        decreases n - i,
    {
        proof {
            assert(proposals@.take(i + 1).drop_last() =~= proposals@.take(i as int));
            lemma_sum_votes_take_le(proposals@, i + 1);
            lemma_blank_votes_le_sum(proposals@.take(i + 1));
        }
        let p = &proposals[i];
        if p.vote_count > 0 {
            if p.proposal_id == BLANK_PROPOSAL_ID {
                blank = blank + p.vote_count;
            } else if p.vote_count > max_votes {
                max_votes = p.vote_count;
            }
            total = total + p.vote_count;
        }
        i = i + 1;
    }
    proof {
        assert(proposals@.take(n as int) =~= proposals@);
    }
    let mut winners: Vec<u8> = Vec::new();
    let mut i: usize = 0;
    while i < n
        invariant
            n == proposals@.len(),
            i <= n,
            max_votes == max_nonblank_votes(proposals@),
            winners@ == winners_with(proposals@.take(i as int), max_nonblank_votes(proposals@)),
        decreases n - i,
    {
        proof {
            assert(proposals@.take(i + 1).drop_last() =~= proposals@.take(i as int));
        }
        let p = &proposals[i];
        if p.vote_count > 0 && p.vote_count == max_votes && p.proposal_id != BLANK_PROPOSAL_ID {
            winners.push(p.proposal_id);
            proof {
                assert(winners@ =~= winners_with(
                    proposals@.take(i as int),
                    max_nonblank_votes(proposals@),
                ) + seq![proposals@[i as int].proposal_id]);
            }
        }
        i = i + 1;
    }
    proof {
        assert(proposals@.take(n as int) =~= proposals@);
    }
    SessionResult {
        total_votes: total,
        blank_votes: blank,
        abstention: voters_count - total,
        winning_proposals: winners,
    }
}

} // verus!

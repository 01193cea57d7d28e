use vstd::prelude::*;

use std::collections::HashMap;

use crate::types::{AccountId, Balance, GovernorError, ProposalId, ProposalVote, VoteType};

verus! {

broadcast use vstd::seq_lib::lemma_seq_contains_after_push;

/// One full weight unit: the largest weight a single voter can contribute,
/// since a weight is an integer percentage of the total stake supply.
pub const MAX_WEIGHT: u128 = 100;

/// The accumulator pair a recorded vote turns `t` into: a missing tally
/// starts at zero, and `weight` lands on the side named by `vote`.
pub open spec fn tally_after(t: Option<ProposalVote>, vote: VoteType, weight: int) -> ProposalVote {
    let base = match t {
        Some(b) => b,
        None => ProposalVote { for_votes: 0, against_vote: 0 },
    };
    match vote {
        VoteType::For => ProposalVote {
            for_votes: (base.for_votes + weight) as Balance,
            against_vote: base.against_vote,
        },
        VoteType::Against => ProposalVote {
            for_votes: base.for_votes,
            against_vote: (base.against_vote + weight) as Balance,
        },
    }
}

/// Owns the per-proposal vote accumulators and the set of voters who already
/// voted, and enforces the one-vote-per-voter-per-proposal rule.
pub struct VoteTally {
    /// One entry per successfully recorded vote: `(proposal, voter)`.
    /// An entry is inserted exactly once and never removed.
    pub records: Vec<(ProposalId, AccountId)>,
    /// Accumulated weights per proposal, created lazily on its first vote.
    pub tallies: HashMap<ProposalId, ProposalVote>,
}

impl VoteTally {
    /// Whether `voter` already has a vote recorded on `pid`.
    pub open spec fn spec_has_voted(self, pid: ProposalId, voter: AccountId) -> bool {
        self.records@.contains((pid, voter))
    }

    /// The accumulators of `pid`; `None` means no vote was ever cast on it.
    pub open spec fn spec_tally(self, pid: ProposalId) -> Option<ProposalVote> {
        if self.tallies@.contains_key(pid) {
            Some(self.tallies@[pid])
        } else {
            None
        }
    }

    /// Well-formedness: a tally exists exactly for the proposals with at
    /// least one recorded vote, and each accumulator pair is bounded by one
    /// full weight unit per recorded vote, so adding one more weight of at
    /// most `MAX_WEIGHT` can never overflow the accumulators.
    pub open spec fn wf(self) -> bool {
        &&& forall|pid: ProposalId|
            #[trigger] self.tallies@.contains_key(pid) <==> (exists|v: AccountId|
                #[trigger] self.records@.contains((pid, v)))
        &&& forall|pid: ProposalId|
            #[trigger] self.tallies@.contains_key(pid) ==> self.tallies@[pid].for_votes
                + self.tallies@[pid].against_vote <= MAX_WEIGHT * self.records@.len()
    }

    /// A tally with no votes recorded on any proposal.
    pub fn empty() -> (r: Self)
        ensures
            r.records@ == Seq::<(ProposalId, AccountId)>::empty(),
            r.tallies@ == Map::<ProposalId, ProposalVote>::empty(),
            r.wf(),
    {
        VoteTally { records: Vec::new(), tallies: HashMap::new() }
    }

    /// Whether `voter` already voted on `pid`.
    pub fn has_voted(&self, pid: ProposalId, voter: AccountId) -> (r: bool)
        ensures
            r == self.spec_has_voted(pid, voter),
    {
        let n: usize = self.records.len();
        let mut i: usize = 0;
        while i < n
            invariant
                n == self.records@.len(),
                0 <= i <= n,
                forall|j: int| 0 <= j < i ==> self.records@[j] != (pid, voter),
            decreases n - i,
        {
            let rec: (ProposalId, AccountId) = self.records[i];
            if rec.0 == pid && rec.1 == voter {
                proof {
                    assert(self.records@[i as int] == (pid, voter));
                }
                return true;
            }
            i += 1;
        }
        false
    }

    /// Pure lookup of the accumulators of `pid`.
    pub fn get_tally(&self, pid: ProposalId) -> (r: Option<ProposalVote>)
        ensures
            r == self.spec_tally(pid),
    {
        match self.tallies.get(&pid) {
            Some(t) => Some(*t),
            None => None,
        }
    }

    /// Records one vote: rejects a second vote from the same voter on the
    /// same proposal, otherwise inserts the vote record, initialises the
    /// tally to zero if the proposal had none, and adds `weight` to the side
    /// named by `vote` — one atomic step, applied fully or not at all.
    pub fn record_vote(
        &mut self,
        pid: ProposalId,
        voter: AccountId,
        vote: VoteType,
        weight: Balance,
    ) -> (r: Result<(), GovernorError>)
        requires
            old(self).wf(),
            weight <= MAX_WEIGHT,
        ensures
            final(self).wf(),
            old(self).spec_has_voted(pid, voter) ==> r == Err::<(), GovernorError>(
                GovernorError::AlreadyVoted,
            ) && *final(self) == *old(self),
            !old(self).spec_has_voted(pid, voter) ==> {
                &&& r == Ok::<(), GovernorError>(())
                &&& final(self).records@ == old(self).records@.push((pid, voter))
                &&& final(self).spec_tally(pid) == Some(
                    tally_after(old(self).spec_tally(pid), vote, weight as int),
                )
                &&& forall|q: ProposalId|
                    q != pid ==> #[trigger] final(self).spec_tally(q) == old(self).spec_tally(q)
            },
    {
        if self.has_voted(pid, voter) {
            return Err(GovernorError::AlreadyVoted);
        }
        let n: usize = self.records.len();
        let base: ProposalVote = match self.tallies.get(&pid) {
            Some(t) => *t,
            None => ProposalVote { for_votes: 0, against_vote: 0 },
        };
        proof {
            assert(base.for_votes + base.against_vote <= MAX_WEIGHT * (n as int));
        }
        let updated: ProposalVote = match vote {
            VoteType::For => ProposalVote {
                for_votes: base.for_votes + weight,
                against_vote: base.against_vote,
            },
            VoteType::Against => ProposalVote {
                for_votes: base.for_votes,
                against_vote: base.against_vote + weight,
            },
        };
        self.records.push((pid, voter));
        self.tallies.insert(pid, updated);
        proof {
            self.lemma_record_vote_wf(*old(self), pid, voter, updated);
        }
        Ok(())
    }

    /// Re-establishes `wf` after one record and its tally were added.
    proof fn lemma_record_vote_wf(
        self,
        pre: VoteTally,
        pid: ProposalId,
        voter: AccountId,
        updated: ProposalVote,
    )
        requires
            pre.wf(),
            self.records@ == pre.records@.push((pid, voter)),
            self.tallies@ == pre.tallies@.insert(pid, updated),
            updated.for_votes + updated.against_vote <= MAX_WEIGHT * pre.records@.len()
                + MAX_WEIGHT,
        ensures
            self.wf(),
    {
        assert(self.records@.len() == pre.records@.len() + 1);
        assert forall|q: ProposalId| #[trigger]
            self.tallies@.contains_key(q) implies (exists|v: AccountId| #[trigger]
            self.records@.contains((q, v))) by {
            if q == pid {
                assert(self.records@.contains((pid, voter)));
            } else {
                assert(pre.tallies@.contains_key(q));
                let v = choose|v: AccountId| #[trigger] pre.records@.contains((q, v));
                assert(self.records@.contains((q, v)));
            }
        }
        assert forall|q: ProposalId| (exists|v: AccountId| #[trigger]
            self.records@.contains((q, v))) implies #[trigger] self.tallies@.contains_key(q) by {
            if q != pid {
                let v = choose|v: AccountId| #[trigger] self.records@.contains((q, v));
                assert(pre.records@.contains((q, v)));
                assert(pre.tallies@.contains_key(q));
            }
        }
        assert forall|q: ProposalId| #[trigger]
            self.tallies@.contains_key(q) implies self.tallies@[q].for_votes
            + self.tallies@[q].against_vote <= MAX_WEIGHT * self.records@.len() by {
            assert(MAX_WEIGHT * self.records@.len() == MAX_WEIGHT * pre.records@.len()
                + MAX_WEIGHT) by (nonlinear_arith)
                requires
                    self.records@.len() == pre.records@.len() + 1,
            ;
            if q != pid {
                assert(pre.tallies@.contains_key(q));
            }
        }
    }
}

} // verus!

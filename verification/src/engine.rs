use vstd::prelude::*;

use crate::registry::ProposalRegistry;
use crate::tally::{tally_after, VoteTally, MAX_WEIGHT};
use crate::types::{AccountId, Balance, GovernorError, Proposal, ProposalId, ProposalVote, VoteType};

verus! {

/// The governance engine: it owns the proposal registry and the vote tally,
/// and drives `propose`, `vote` and `execute` under the quorum/majority rule.
///
/// The engine performs no I/O of its own.  The clock reading, the caller's
/// identity and the stake-asset oracle figures are passed in by the hosting
/// runtime as plain arguments, so every branch the engine takes is verified.
pub struct Governor {
    pub proposals: ProposalRegistry,
    pub votes: VoteTally,
    /// Minimum combined weighted participation, in percentage points of the
    /// total stake supply, required before a proposal can be decided.
    pub quorum: u8,
    /// Opaque reference to the stake-asset ledger the hosting runtime reads
    /// balances and the total supply from.
    pub governance_token: AccountId,
}

impl Governor {
    /// Well-formedness of the whole engine state.
    pub open spec fn wf(self) -> bool {
        &&& self.proposals.wf()
        &&& self.votes.wf()
        &&& self.quorum <= 100
    }

    /// Lookup of a proposal by id.
    pub open spec fn spec_get_proposal(self, pid: ProposalId) -> Option<Proposal> {
        self.proposals.spec_get(pid)
    }

    /// Whether `voter` already has a vote recorded on `pid`.
    pub open spec fn spec_has_voted(self, pid: ProposalId, voter: AccountId) -> bool {
        self.votes.spec_has_voted(pid, voter)
    }

    /// The accumulators of `pid`; `None` means no vote was ever cast on it.
    pub open spec fn spec_tally(self, pid: ProposalId) -> Option<ProposalVote> {
        self.votes.spec_tally(pid)
    }

    /// The id the next created proposal will get.
    pub open spec fn spec_next_id(self) -> int {
        self.proposals@.len() as int
    }

    /// A voter's weight: the integer percentage of the total stake supply
    /// they hold, `floor(balance * 100 / supply)`.  The fraction below one
    /// percentage point is deliberately discarded.
    pub open spec fn vote_weight(balance: Balance, supply: Balance) -> int
        recommends
            supply > 0,
    {
        (balance * 100) / (supply as int)
    }

    /// The exact outcome of `propose` on the given inputs.
    pub open spec fn propose_decision(self, amount: Balance, duration: u64, now: u64) -> Result<
        ProposalId,
        GovernorError,
    > {
        if amount == 0 {
            Err(GovernorError::AmountShouldNotBeZero)
        } else if duration == 0 {
            Err(GovernorError::DurationError)
        } else if now + duration > u64::MAX {
            Err(GovernorError::DurationError)
        } else {
            Ok(self.spec_next_id() as ProposalId)
        }
    }

    /// The exact outcome of `vote` on the given inputs, with the checks in
    /// the order the engine makes them.
    pub open spec fn vote_decision(
        self,
        pid: ProposalId,
        voter: AccountId,
        now: u64,
        balance: Balance,
        supply: Balance,
    ) -> Result<(), GovernorError> {
        match self.spec_get_proposal(pid) {
            None => Err(GovernorError::ProposalNotFound),
            Some(p) => if p.executed {
                Err(GovernorError::ProposalAlreadyExecuted)
            } else if p.vote_end < now {
                Err(GovernorError::VotePeriodEnded)
            } else if self.spec_has_voted(pid, voter) {
                Err(GovernorError::AlreadyVoted)
            } else if supply == 0 {
                Err(GovernorError::InvalidOracleState)
            } else {
                Ok(())
            },
        }
    }

    /// The exact outcome of `execute` on the given id: quorum asks for the
    /// combined weight, acceptance for a strict For majority — a tie is
    /// rejected.
    pub open spec fn execute_decision(self, pid: ProposalId) -> Result<(), GovernorError> {
        match self.spec_get_proposal(pid) {
            None => Err(GovernorError::ProposalNotFound),
            Some(p) => if p.executed {
                Err(GovernorError::ProposalAlreadyExecuted)
            } else {
                match self.spec_tally(pid) {
                    None => Err(GovernorError::QuorumNotReached),
                    Some(t) => if t.for_votes + t.against_vote < self.quorum {
                        Err(GovernorError::QuorumNotReached)
                    } else if t.for_votes <= t.against_vote {
                        Err(GovernorError::ProposalNotAccepted)
                    } else {
                        Ok(())
                    },
                }
            },
        }
    }

    /// Two engine states hold the same governance data.
    pub open spec fn state_eq(a: Governor, b: Governor) -> bool {
        &&& a.proposals@ == b.proposals@
        &&& a.votes.records@ == b.votes.records@
        &&& a.votes.tallies@ == b.votes.tallies@
        &&& a.quorum == b.quorum
        &&& a.governance_token == b.governance_token
    }

    /// How a successful `propose` changes the state: one fresh record is
    /// appended, votes and configuration are untouched.
    pub open spec fn propose_ok_transition(
        pre: Governor,
        post: Governor,
        to: AccountId,
        amount: Balance,
        duration: u64,
        now: u64,
    ) -> bool {
        &&& post.proposals@ == pre.proposals@.push(
            (Proposal {
                to,
                vote_start: now,
                vote_end: (now + duration) as u64,
                executed: false,
                amount,
            }),
        )
        &&& post.votes.records@ == pre.votes.records@
        &&& post.votes.tallies@ == pre.votes.tallies@
        &&& post.quorum == pre.quorum
        &&& post.governance_token == pre.governance_token
    }

    /// How a successful `vote` changes the state: one vote record is
    /// appended, exactly one tally gains exactly one weight contribution,
    /// and the proposals and configuration are untouched.
    pub open spec fn vote_ok_transition(
        pre: Governor,
        post: Governor,
        pid: ProposalId,
        voter: AccountId,
        vote: VoteType,
        weight: int,
    ) -> bool {
        &&& post.proposals@ == pre.proposals@
        &&& post.votes.records@ == pre.votes.records@.push((pid, voter))
        &&& post.spec_tally(pid) == Some(tally_after(pre.spec_tally(pid), vote, weight))
        &&& forall|q: ProposalId|
            q != pid ==> #[trigger] post.spec_tally(q) == pre.spec_tally(q)
        &&& post.quorum == pre.quorum
        &&& post.governance_token == pre.governance_token
    }

    /// How a successful `execute` changes the state: the one record flips
    /// `executed` to true, everything else is untouched.
    pub open spec fn execute_ok_transition(pre: Governor, post: Governor, pid: ProposalId) -> bool {
        let p = pre.spec_get_proposal(pid).unwrap();
        &&& pre.spec_get_proposal(pid) is Some
        &&& post.proposals@ == pre.proposals@.update(
            pid as int,
            (Proposal {
                to: p.to,
                vote_start: p.vote_start,
                vote_end: p.vote_end,
                executed: true,
                amount: p.amount,
            }),
        )
        &&& post.votes.records@ == pre.votes.records@
        &&& post.votes.tallies@ == pre.votes.tallies@
        &&& post.quorum == pre.quorum
        &&& post.governance_token == pre.governance_token
    }

    /// Creates an engine that owns no proposals and no votes, configured
    /// once and for all with the stake-asset reference and the quorum
    /// threshold in percentage points.
    pub fn new(governance_token: AccountId, quorum: u8) -> (r: Governor)
        requires
            quorum <= 100,
        ensures
            r.wf(),
            r.proposals@ == Seq::<Proposal>::empty(),
            r.votes.records@ == Seq::<(ProposalId, AccountId)>::empty(),
            r.votes.tallies@ == Map::<ProposalId, ProposalVote>::empty(),
            r.quorum == quorum,
            r.governance_token == governance_token,
    {
        Governor {
            proposals: ProposalRegistry::empty(),
            votes: VoteTally::empty(),
            quorum,
            governance_token,
        }
    }

    /// Pure lookup of a proposal; repeated calls on an unchanged engine
    /// return the same record.
    pub fn get_proposal(&self, proposal_id: ProposalId) -> (r: Option<Proposal>)
        ensures
            r == self.spec_get_proposal(proposal_id),
    {
        self.proposals.get(proposal_id)
    }

    /// The id the next created proposal will get; it grows by exactly one
    /// per successful `propose` and never otherwise.
    pub fn next_proposal_id(&self) -> (r: ProposalId)
        ensures
            r as int == self.spec_next_id(),
    {
        self.proposals.next_id()
    }

    /// Pure lookup of the accumulators of a proposal; `None` means no vote
    /// was ever cast on it.
    pub fn get_tally(&self, proposal_id: ProposalId) -> (r: Option<ProposalVote>)
        ensures
            r == self.spec_tally(proposal_id),
    {
        self.votes.get_tally(proposal_id)
    }

    /// Creates a proposal to transfer `amount` to `to`, with a voting window
    /// from `now` to `now + duration`.  Rejects a zero amount, and a zero or
    /// overflowing duration; a rejection changes nothing, not even the id
    /// sequence.
    pub fn propose(&mut self, to: AccountId, amount: Balance, duration: u64, now: u64) -> (r:
        Result<ProposalId, GovernorError>)
        requires
            old(self).wf(),
        ensures
            final(self).wf(),
            r == old(self).propose_decision(amount, duration, now),
            r is Err ==> Self::state_eq(*final(self), *old(self)),
            r is Ok ==> Self::propose_ok_transition(*old(self), *final(self), to, amount, duration, now),
    {
        if amount == 0 {
            return Err(GovernorError::AmountShouldNotBeZero);
        }
        if duration == 0 {
            return Err(GovernorError::DurationError);
        }
        if duration > u64::MAX - now {
            return Err(GovernorError::DurationError);
        }
        let id: ProposalId = self.proposals.create(to, amount, now, now + duration);
        Ok(id)
    }

    /// Casts `caller`'s vote on a proposal with the weight its stake gives
    /// it: the integer percentage of `total_supply` held as `voter_balance`,
    /// both read from the stake-weight oracle by the hosting runtime.  The
    /// proposal must exist, be unexecuted and still in its voting window,
    /// the caller must not have voted on it before, and the oracle must
    /// report a positive supply; any rejection changes nothing.
    pub fn vote(
        &mut self,
        proposal_id: ProposalId,
        vote: VoteType,
        caller: AccountId,
        now: u64,
        voter_balance: Balance,
        total_supply: Balance,
    ) -> (r: Result<(), GovernorError>)
        requires
            old(self).wf(),
            voter_balance <= total_supply,
            total_supply <= u128::MAX / 100,
        ensures
            final(self).wf(),
            r == old(self).vote_decision(proposal_id, caller, now, voter_balance, total_supply),
            r is Err ==> Self::state_eq(*final(self), *old(self)),
            r is Ok ==> Self::vote_ok_transition(
                *old(self),
                *final(self),
                proposal_id,
                caller,
                vote,
                Self::vote_weight(voter_balance, total_supply),
            ),
    {
        let p: Proposal = match self.proposals.get(proposal_id) {
            None => {
                return Err(GovernorError::ProposalNotFound);
            },
            Some(p) => p,
        };
        if p.executed {
            return Err(GovernorError::ProposalAlreadyExecuted);
        }
        if p.vote_end < now {
            return Err(GovernorError::VotePeriodEnded);
        }
        if self.votes.has_voted(proposal_id, caller) {
            return Err(GovernorError::AlreadyVoted);
        }
        if total_supply == 0 {
            return Err(GovernorError::InvalidOracleState);
        }
        let weight: Balance = voter_balance * 100 / total_supply;
        proof {
            vstd::arithmetic::div_mod::lemma_div_is_ordered(
                voter_balance * 100,
                total_supply * 100,
                total_supply as int,
            );
            vstd::arithmetic::div_mod::lemma_div_multiples_vanish(100, total_supply as int);
            assert(weight <= MAX_WEIGHT);
        }
        self.votes.record_vote(proposal_id, caller, vote, weight)
    }

    /// Marks a proposal executed if its votes carry it: the combined weight
    /// must reach the quorum threshold and the For weight must strictly
    /// exceed the Against weight.  Execution is terminal — a second call on
    /// the same id is rejected — and a rejection changes nothing.
    pub fn execute(&mut self, proposal_id: ProposalId) -> (r: Result<(), GovernorError>)
        requires
            old(self).wf(),
        ensures
            final(self).wf(),
            r == old(self).execute_decision(proposal_id),
            r is Err ==> Self::state_eq(*final(self), *old(self)),
            r is Ok ==> Self::execute_ok_transition(*old(self), *final(self), proposal_id),
            forall|i: int|
                0 <= i < old(self).proposals@.len() && (#[trigger] old(self).proposals@[i]).executed
                    ==> final(self).proposals@[i].executed,
    {
        let p: Proposal = match self.proposals.get(proposal_id) {
            None => {
                return Err(GovernorError::ProposalNotFound);
            },
            Some(p) => p,
        };
        if p.executed {
            return Err(GovernorError::ProposalAlreadyExecuted);
        }
        let t: ProposalVote = match self.votes.get_tally(proposal_id) {
            None => {
                return Err(GovernorError::QuorumNotReached);
            },
            Some(t) => t,
        };
        proof {
            vstd::std_specs::vec::axiom_spec_len(&self.votes.records);
            assert(t.for_votes + t.against_vote <= MAX_WEIGHT * self.votes.records@.len());
        }
        if t.for_votes + t.against_vote < self.quorum as Balance {
            return Err(GovernorError::QuorumNotReached);
        }
        if t.for_votes <= t.against_vote {
            return Err(GovernorError::ProposalNotAccepted);
        }
        // existence was confirmed above, so the registry cannot report
        // `ProposalNotFound` here
        self.proposals.mark_executed(proposal_id).unwrap();
        Ok(())
    }
}

} // verus!

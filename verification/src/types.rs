use vstd::prelude::*;

verus! {

/// Sequential identifier of a proposal, assigned from zero upward and never
/// reused.
pub type ProposalId = u64;

/// Opaque identity of an account: a proposal's recipient, a voter, or the
/// stake-asset ledger the governor is configured with.
pub type AccountId = u64;

/// Quantity of the governed asset, and of the reference stake asset whose
/// holders vote.
pub type Balance = u128;

/// A ballot choice on a proposal.
#[derive(Clone, Copy, Debug, PartialEq, Eq)]
pub enum VoteType {
    For,
    Against,
}

/// Every way a governance operation can be rejected.  All of these are
/// precondition or invariant violations reported synchronously; none is
/// transient, and a rejected operation leaves the engine's state unchanged.
#[derive(Clone, Copy, Debug, PartialEq, Eq)]
pub enum GovernorError {
    /// `propose` was given a zero amount.
    AmountShouldNotBeZero,
    /// `propose` was given a zero duration, or one whose end of window
    /// overflows the timestamp type.
    DurationError,
    /// `execute` found no vote at all, or a combined weight below the
    /// configured quorum threshold.
    QuorumNotReached,
    /// The given proposal id was never assigned.
    ProposalNotFound,
    /// The proposal was already executed; execution is terminal.
    ProposalAlreadyExecuted,
    /// `vote` was called after the proposal's voting window closed.
    VotePeriodEnded,
    /// The caller already has a vote recorded on this proposal.
    AlreadyVoted,
    /// The For weight does not strictly exceed the Against weight; ties are
    /// rejected.
    ProposalNotAccepted,
    /// The stake-weight oracle reported a zero total supply, so no weight can
    /// be computed.
    InvalidOracleState,
}

/// A pending or decided request to transfer `amount` of the governed asset to
/// `to`, voted on between `vote_start` and `vote_end` inclusive.
#[derive(Clone, Copy, Debug, PartialEq, Eq)]
pub struct Proposal {
    pub to: AccountId,
    pub vote_start: u64,
    pub vote_end: u64,
    pub executed: bool,
    pub amount: Balance,
}

impl Proposal {
    /// Structural invariant of every stored proposal: a positive amount and a
    /// voting window of positive length.
    pub open spec fn wf(self) -> bool {
        self.amount > 0 && self.vote_start < self.vote_end
    }
}

/// Weighted vote accumulators for one proposal: the summed For and Against
/// weights over all votes cast on it.
#[derive(Clone, Copy, Debug, PartialEq, Eq)]
pub struct ProposalVote {
    pub for_votes: Balance,
    pub against_vote: Balance,
}

} // verus!

use vstd::prelude::*;

use crate::engine::Governor;
use crate::tally::tally_after;
use crate::types::{AccountId, Balance, GovernorError, ProposalId, VoteType};

verus! {

broadcast use vstd::seq_lib::lemma_seq_contains_after_push;

/// Double-vote prevention: once a vote from `voter` on `pid` has succeeded,
/// a second vote from the same identity on the same proposal is rejected
/// with `AlreadyVoted`, whatever weight the oracle would now give it, and
/// the tally keeps exactly the one contribution the first vote added.
pub proof fn lemma_second_vote_rejected(
    pre: Governor,
    post: Governor,
    pid: ProposalId,
    voter: AccountId,
    vote: VoteType,
    weight: int,
    now1: u64,
    balance1: Balance,
    supply1: Balance,
    now2: u64,
    balance2: Balance,
    supply2: Balance,
)
    requires
        pre.wf(),
        pre.vote_decision(pid, voter, now1, balance1, supply1) == Ok::<(), GovernorError>(()),
        Governor::vote_ok_transition(pre, post, pid, voter, vote, weight),
        now2 <= pre.spec_get_proposal(pid).unwrap().vote_end,
    ensures
        post.vote_decision(pid, voter, now2, balance2, supply2) == Err::<(), GovernorError>(
            GovernorError::AlreadyVoted,
        ),
        post.spec_tally(pid) == Some(tally_after(pre.spec_tally(pid), vote, weight)),
{
    assert(post.votes.records@.contains((pid, voter)));
}

/// A proposal nobody voted on cannot be executed: with no vote record for
/// `pid` there is no tally for it, and `execute` reports `QuorumNotReached`.
pub proof fn lemma_no_votes_means_no_quorum(g: Governor, pid: ProposalId)
    requires
        g.wf(),
        g.spec_get_proposal(pid) is Some,
        !g.spec_get_proposal(pid).unwrap().executed,
        forall|v: AccountId| !g.spec_has_voted(pid, v),
    ensures
        g.execute_decision(pid) == Err::<(), GovernorError>(GovernorError::QuorumNotReached),
{
    if g.votes.tallies@.contains_key(pid) {
        let v = choose|v: AccountId| #[trigger] g.votes.records@.contains((pid, v));
        assert(!g.spec_has_voted(pid, v));
        assert(false);
    }
}

/// Majority must be strict: a proposal whose combined weight reaches the
/// quorum but whose For weight does not exceed its Against weight — a
/// losing vote or a tie — is rejected with `ProposalNotAccepted`.
pub proof fn lemma_no_majority_means_rejection(g: Governor, pid: ProposalId)
    requires
        g.wf(),
        g.spec_get_proposal(pid) is Some,
        !g.spec_get_proposal(pid).unwrap().executed,
        g.spec_tally(pid) is Some,
        g.spec_tally(pid).unwrap().for_votes + g.spec_tally(pid).unwrap().against_vote
            >= g.quorum,
        g.spec_tally(pid).unwrap().for_votes <= g.spec_tally(pid).unwrap().against_vote,
    ensures
        g.execute_decision(pid) == Err::<(), GovernorError>(GovernorError::ProposalNotAccepted),
{
}

/// Execution is terminal: after a successful `execute` the stored record
/// shows `executed`, and a second `execute` on the same id is rejected with
/// `ProposalAlreadyExecuted` — whatever its tally says.
pub proof fn lemma_execute_is_terminal(pre: Governor, post: Governor, pid: ProposalId)
    requires
        pre.wf(),
        pre.execute_decision(pid) == Ok::<(), GovernorError>(()),
        Governor::execute_ok_transition(pre, post, pid),
    ensures
        post.spec_get_proposal(pid) is Some,
        post.spec_get_proposal(pid).unwrap().executed,
        post.execute_decision(pid) == Err::<(), GovernorError>(GovernorError::ProposalAlreadyExecuted),
{
}

} // verus!

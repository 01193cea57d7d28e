use dao::engine::Governor;
use dao::types::{GovernorError, Proposal, ProposalVote, VoteType};

// Identities used across the tests: an account standing for the stake-asset
// ledger, and a few voters / recipients.
fn token() -> u64 {
    9
}

fn alice() -> u64 {
    1
}

fn bob() -> u64 {
    2
}

fn django() -> u64 {
    4
}

fn create_contract() -> Governor {
    Governor::new(token(), 50)
}

#[test]
fn propose_works() {
    let mut governor = create_contract();
    assert_eq!(
        governor.propose(django(), 0, 1, 0),
        Err(GovernorError::AmountShouldNotBeZero)
    );
    assert_eq!(
        governor.propose(django(), 100, 0, 0),
        Err(GovernorError::DurationError)
    );
    let result = governor.propose(django(), 100, 1, 0);
    assert_eq!(result, Ok(0));
    let proposal = governor.get_proposal(0).unwrap();
    assert_eq!(
        proposal,
        Proposal {
            to: django(),
            amount: 100,
            vote_start: 0,
            vote_end: 1,
            executed: false,
        }
    );
    assert_eq!(governor.next_proposal_id(), 1);
}

#[test]
fn quorum_not_reached() {
    let mut governor = create_contract();
    let propose = governor.propose(bob(), 100, 1, 0);
    assert_eq!(propose, Ok(0));
    let execute = governor.execute(0);
    assert_eq!(execute, Err(GovernorError::QuorumNotReached));
}

#[test]
fn proposal_not_accepted_with_vote_against() {
    let mut governor = create_contract();
    let propose = governor.propose(bob(), 100, 1, 0);
    assert_eq!(propose, Ok(0));
    let vote = governor.vote(0, VoteType::Against, alice(), 0, 10, 10);
    assert_eq!(vote, Ok(()));
    let execute = governor.execute(0);
    assert_eq!(execute, Err(GovernorError::ProposalNotAccepted));
}

#[test]
fn proposal_accepted_with_vote_for() {
    let mut governor = create_contract();
    let propose = governor.propose(bob(), 100, 1, 0);
    assert_eq!(propose, Ok(0));
    let vote = governor.vote(0, VoteType::For, alice(), 0, 10, 10);
    assert_eq!(vote, Ok(()));
    let execute = governor.execute(0);
    assert_eq!(execute, Ok(()));
}

#[test]
fn rejected_propose_creates_nothing() {
    let mut governor = create_contract();
    assert_eq!(
        governor.propose(django(), 0, 1, 0),
        Err(GovernorError::AmountShouldNotBeZero)
    );
    assert_eq!(governor.next_proposal_id(), 0);
    assert_eq!(governor.get_proposal(0), None);
}

#[test]
fn overflowing_duration_rejected() {
    let mut governor = create_contract();
    assert_eq!(
        governor.propose(django(), 100, u64::MAX, 5),
        Err(GovernorError::DurationError)
    );
    assert_eq!(governor.next_proposal_id(), 0);
}

#[test]
fn vote_on_absent_proposal_rejected() {
    let mut governor = create_contract();
    assert_eq!(
        governor.vote(7, VoteType::For, alice(), 0, 10, 10),
        Err(GovernorError::ProposalNotFound)
    );
}

#[test]
fn execute_on_absent_proposal_rejected() {
    let mut governor = create_contract();
    assert_eq!(governor.execute(3), Err(GovernorError::ProposalNotFound));
}

#[test]
fn double_vote_rejected() {
    let mut governor = create_contract();
    assert_eq!(governor.propose(bob(), 100, 10, 0), Ok(0));
    assert_eq!(governor.vote(0, VoteType::For, alice(), 1, 10, 10), Ok(()));
    assert_eq!(
        governor.vote(0, VoteType::For, alice(), 2, 10, 10),
        Err(GovernorError::AlreadyVoted)
    );
    // the tally holds exactly the one contribution of the first vote
    assert_eq!(
        governor.get_tally(0),
        Some(ProposalVote {
            for_votes: 100,
            against_vote: 0,
        })
    );
}

#[test]
fn vote_after_period_ended_rejected() {
    let mut governor = create_contract();
    assert_eq!(governor.propose(bob(), 100, 1, 0), Ok(0));
    assert_eq!(
        governor.vote(0, VoteType::For, alice(), 2, 10, 10),
        Err(GovernorError::VotePeriodEnded)
    );
    // the window check comes first, whatever the caller's vote history
    assert_eq!(governor.propose(bob(), 100, 1, 0), Ok(1));
    assert_eq!(governor.vote(1, VoteType::For, alice(), 1, 10, 10), Ok(()));
    assert_eq!(
        governor.vote(1, VoteType::For, alice(), 2, 10, 10),
        Err(GovernorError::VotePeriodEnded)
    );
}

#[test]
fn executed_proposal_is_terminal() {
    let mut governor = create_contract();
    assert_eq!(governor.propose(bob(), 100, 1, 0), Ok(0));
    assert_eq!(governor.vote(0, VoteType::For, alice(), 0, 10, 10), Ok(()));
    assert_eq!(governor.execute(0), Ok(()));
    assert!(governor.get_proposal(0).unwrap().executed);
    assert_eq!(governor.execute(0), Err(GovernorError::ProposalAlreadyExecuted));
    assert_eq!(
        governor.vote(0, VoteType::Against, bob(), 0, 10, 10),
        Err(GovernorError::ProposalAlreadyExecuted)
    );
}

#[test]
fn zero_total_supply_rejected() {
    let mut governor = create_contract();
    assert_eq!(governor.propose(bob(), 100, 1, 0), Ok(0));
    assert_eq!(
        governor.vote(0, VoteType::For, alice(), 0, 0, 0),
        Err(GovernorError::InvalidOracleState)
    );
    // the rejected vote left no trace
    assert_eq!(governor.get_tally(0), None);
}

#[test]
fn weight_is_floored_percentage() {
    let mut governor = create_contract();
    assert_eq!(governor.propose(bob(), 100, 1, 0), Ok(0));
    // 1 of 3 units of stake: floor(1 * 100 / 3) = 33, not 34
    assert_eq!(governor.vote(0, VoteType::For, alice(), 0, 1, 3), Ok(()));
    assert_eq!(
        governor.get_tally(0),
        Some(ProposalVote {
            for_votes: 33,
            against_vote: 0,
        })
    );
    // 2 of 3 units from a second voter adds floor(2 * 100 / 3) = 66
    assert_eq!(governor.vote(0, VoteType::Against, bob(), 0, 2, 3), Ok(()));
    assert_eq!(
        governor.get_tally(0),
        Some(ProposalVote {
            for_votes: 33,
            against_vote: 66,
        })
    );
}

#[test]
fn tie_is_rejected() {
    let mut governor = create_contract();
    assert_eq!(governor.propose(bob(), 100, 1, 0), Ok(0));
    assert_eq!(governor.vote(0, VoteType::For, alice(), 0, 1, 4), Ok(()));
    assert_eq!(governor.vote(0, VoteType::Against, bob(), 0, 3, 4), Ok(()));
    // 25 For vs 75 Against reaches the quorum of 50 but loses
    assert_eq!(governor.execute(0), Err(GovernorError::ProposalNotAccepted));

    assert_eq!(governor.propose(bob(), 100, 1, 0), Ok(1));
    assert_eq!(governor.vote(1, VoteType::For, alice(), 0, 2, 4), Ok(()));
    assert_eq!(governor.vote(1, VoteType::Against, bob(), 0, 2, 4), Ok(()));
    // 50 For vs 50 Against: a tie reaches the quorum and is still rejected
    assert_eq!(governor.execute(1), Err(GovernorError::ProposalNotAccepted));
}

#[test]
fn quorum_counts_combined_weight() {
    let mut governor = create_contract();
    assert_eq!(governor.propose(bob(), 100, 1, 0), Ok(0));
    // a lone For vote of weight 49 misses the quorum of 50
    assert_eq!(governor.vote(0, VoteType::For, alice(), 0, 49, 100), Ok(()));
    assert_eq!(governor.execute(0), Err(GovernorError::QuorumNotReached));
    // one more percentage point from a second voter reaches it
    assert_eq!(governor.vote(0, VoteType::For, bob(), 0, 1, 100), Ok(()));
    assert_eq!(governor.execute(0), Ok(()));
}

#[test]
fn reads_are_idempotent() {
    let mut governor = create_contract();
    assert_eq!(governor.propose(django(), 100, 5, 3), Ok(0));
    assert_eq!(governor.vote(0, VoteType::For, alice(), 3, 10, 10), Ok(()));
    assert_eq!(governor.get_proposal(0), governor.get_proposal(0));
    assert_eq!(governor.get_tally(0), governor.get_tally(0));
    assert_eq!(governor.next_proposal_id(), governor.next_proposal_id());
    // and none of those reads changed anything
    assert_eq!(
        governor.get_proposal(0),
        Some(Proposal {
            to: django(),
            amount: 100,
            vote_start: 3,
            vote_end: 8,
            executed: false,
        })
    );
}

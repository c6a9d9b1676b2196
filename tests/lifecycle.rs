use anchor_governance::cast_vote::CastVote;
use anchor_governance::create_proposal::CreateProposal;
use anchor_governance::create_realm::CreateRealm;
use anchor_governance::error::GovernanceError;
use anchor_governance::execute_proposal::ExecuteProposal;
use anchor_governance::finalize_vote::FinalizeVote;
use anchor_governance::proposal::{Proposal, ProposalAccountMeta, ProposalInstruction, ProposalState};
use anchor_governance::pubkey::Pubkey;
use anchor_governance::realm::{GovernanceRealm, RealmConfig, VoteThreshold};
use anchor_governance::start_voting::StartVoting;
use anchor_governance::vote_record::{VoteLedger, VoteType};

const START: i64 = 1_000_000;
const WINDOW: u32 = 3600;

fn key(n: u64) -> Pubkey {
    Pubkey::new(n, 0, 0, 0)
}

fn realm_key() -> Pubkey {
    key(100)
}

fn proposal_key() -> Pubkey {
    key(200)
}

fn proposer() -> Pubkey {
    key(1)
}

fn make_realm(threshold: VoteThreshold) -> GovernanceRealm {
    let ctx = CreateRealm { authority: key(9), governance_token_mint: key(50), realm_bump: 255 };
    let config = RealmConfig {
        min_community_weight_to_create_proposal: 10,
        voting_base_time: WINDOW,
        community_vote_threshold: threshold,
    };
    ctx.create_realm("dao".to_string(), config).unwrap()
}

fn make_proposal(realm: &GovernanceRealm, instructions: Vec<ProposalInstruction>) -> Proposal {
    let mut ctx = CreateProposal {
        proposer: proposer(),
        proposer_weight: 10,
        governance_realm: realm.clone(),
        governance_realm_key: realm_key(),
        proposal_bump: 7,
    };
    ctx.create_proposal("title".to_string(), "description".to_string(), instructions).unwrap()
}

fn start(proposal: Proposal) -> Proposal {
    let mut ctx = StartVoting { proposer: proposer(), governance_realm_key: realm_key(), proposal };
    ctx.start_voting(START).unwrap();
    ctx.proposal
}

fn vote_ctx(realm: &GovernanceRealm, proposal: Proposal, ledger: VoteLedger, voter: u64, weight: u64) -> CastVote {
    CastVote {
        voter: key(voter),
        voter_weight: weight,
        governance_realm: realm.clone(),
        governance_realm_key: realm_key(),
        proposal,
        proposal_key: proposal_key(),
        vote_records: ledger,
        vote_record_bump: 3,
    }
}

/// Opens a proposal in `realm` and casts a yes vote of `yes` and a no vote of `no`.
fn voted(realm: &GovernanceRealm, yes: u64, no: u64) -> Proposal {
    let proposal = start(make_proposal(realm, Vec::new()));
    let mut ctx = vote_ctx(realm, proposal, VoteLedger::new(), 11, yes);
    ctx.cast_vote(VoteType::Yes, START + 1).unwrap();
    let mut ctx = vote_ctx(realm, ctx.proposal, ctx.vote_records, 12, no);
    ctx.cast_vote(VoteType::No, START + 2).unwrap();
    ctx.proposal
}

fn finalize(realm: &GovernanceRealm, proposal: Proposal, supply: u64, now: i64) -> (FinalizeVote, Result<(), GovernanceError>) {
    let mut ctx = FinalizeVote {
        finalizer: key(77),
        governance_realm: realm.clone(),
        governance_realm_key: realm_key(),
        proposal,
        total_supply: supply,
    };
    let r = ctx.finalize_vote(now);
    (ctx, r)
}

fn after_window() -> i64 {
    START + WINDOW as i64 + 1
}

fn action(accounts: Vec<Pubkey>) -> ProposalInstruction {
    ProposalInstruction {
        program_id: key(500),
        accounts: accounts
            .into_iter()
            .map(|k| ProposalAccountMeta { pubkey: k, is_signer: false, is_writable: true })
            .collect(),
        data: vec![1, 2, 3],
    }
}

fn succeeded_proposal(instructions: Vec<ProposalInstruction>) -> Proposal {
    let realm = make_realm(VoteThreshold::YesVotePercentage(50));
    let proposal = start(make_proposal(&realm, instructions));
    let mut ctx = vote_ctx(&realm, proposal, VoteLedger::new(), 11, 60);
    ctx.cast_vote(VoteType::Yes, START + 1).unwrap();
    let (f, r) = finalize(&realm, ctx.proposal, 1000, after_window());
    assert_eq!(r, Ok(()));
    assert_eq!(f.proposal.state, ProposalState::Succeeded);
    f.proposal
}

#[test]
fn scenario_yes_percentage_passes() {
    let realm = make_realm(VoteThreshold::YesVotePercentage(50));
    let p = voted(&realm, 60, 40);
    let (f, r) = finalize(&realm, p, 1000, after_window());
    assert_eq!(r, Ok(()));
    assert_eq!(f.proposal.state, ProposalState::Succeeded);
    assert_eq!(f.proposal.voting_completed_at, Some(after_window()));
}

#[test]
fn scenario_yes_percentage_defeated() {
    let realm = make_realm(VoteThreshold::YesVotePercentage(50));
    let p = voted(&realm, 40, 60);
    let (f, r) = finalize(&realm, p, 1000, after_window());
    assert_eq!(r, Ok(()));
    assert_eq!(f.proposal.state, ProposalState::Defeated);
}

#[test]
fn scenario_quorum_passes() {
    let realm = make_realm(VoteThreshold::QuorumPercentage(20));
    let p = voted(&realm, 150, 60);
    let (f, r) = finalize(&realm, p, 1000, after_window());
    assert_eq!(r, Ok(()));
    assert_eq!(f.proposal.state, ProposalState::Succeeded);
}

#[test]
fn scenario_quorum_met_but_no_wins() {
    let realm = make_realm(VoteThreshold::QuorumPercentage(20));
    let p = voted(&realm, 60, 150);
    let (f, r) = finalize(&realm, p, 1000, after_window());
    assert_eq!(r, Ok(()));
    assert_eq!(f.proposal.state, ProposalState::Defeated);
}

#[test]
fn quorum_not_reached_is_defeated() {
    let realm = make_realm(VoteThreshold::QuorumPercentage(20));
    let p = voted(&realm, 150, 49);
    let (f, _) = finalize(&realm, p, 1000, after_window());
    assert_eq!(f.proposal.state, ProposalState::Defeated);
}

#[test]
fn scenario_second_vote_already_voted() {
    let realm = make_realm(VoteThreshold::YesVotePercentage(50));
    let proposal = start(make_proposal(&realm, Vec::new()));
    let mut ctx = vote_ctx(&realm, proposal, VoteLedger::new(), 11, 60);
    assert_eq!(ctx.cast_vote(VoteType::Yes, START + 1), Ok(()));
    assert_eq!(ctx.proposal.vote_yes, 60);
    let r = ctx.cast_vote(VoteType::No, START + 2);
    assert_eq!(r, Err(GovernanceError::AlreadyVoted));
    assert_eq!(ctx.proposal.vote_yes, 60);
    assert_eq!(ctx.proposal.vote_no, 0);
    assert_eq!(ctx.vote_records.len(), 1);
    assert_eq!(ctx.vote_records.find(proposal_key(), key(11)), Some(0));
}

#[test]
fn abstain_is_recorded_without_tally() {
    let realm = make_realm(VoteThreshold::YesVotePercentage(50));
    let proposal = start(make_proposal(&realm, Vec::new()));
    let mut ctx = vote_ctx(&realm, proposal, VoteLedger::new(), 11, 60);
    assert_eq!(ctx.cast_vote(VoteType::Abstain, START + 1), Ok(()));
    assert_eq!((ctx.proposal.vote_yes, ctx.proposal.vote_no), (0, 0));
    assert_eq!(ctx.vote_records.records[0].vote_weight, 60);
    assert_eq!(ctx.vote_records.records[0].vote_type, VoteType::Abstain);
    assert_eq!(ctx.vote_records.records[0].voted_at, START + 1);
    assert_eq!(ctx.cast_vote(VoteType::Yes, START + 2), Err(GovernanceError::AlreadyVoted));
    assert_eq!(ctx.proposal.vote_yes, 0);
}

#[test]
fn scenario_vote_after_window_fails() {
    let realm = make_realm(VoteThreshold::YesVotePercentage(50));
    let proposal = start(make_proposal(&realm, Vec::new()));
    let mut ctx = vote_ctx(&realm, proposal, VoteLedger::new(), 11, 60);
    assert_eq!(ctx.cast_vote(VoteType::Yes, after_window()), Err(GovernanceError::VotingPeriodEnded));
    assert_eq!(ctx.proposal.vote_yes, 0);
    assert_eq!(ctx.vote_records.len(), 0);
}

#[test]
fn vote_at_window_end_is_accepted() {
    let realm = make_realm(VoteThreshold::YesVotePercentage(50));
    let proposal = start(make_proposal(&realm, Vec::new()));
    let mut ctx = vote_ctx(&realm, proposal, VoteLedger::new(), 11, 60);
    assert_eq!(ctx.cast_vote(VoteType::Yes, START + WINDOW as i64), Ok(()));
    let (_, r) = finalize(&realm, ctx.proposal, 1000, START + WINDOW as i64);
    assert_eq!(r, Err(GovernanceError::VotingPeriodNotEnded));
}

#[test]
fn scenario_finalize_before_expiry_fails() {
    let realm = make_realm(VoteThreshold::YesVotePercentage(50));
    let p = voted(&realm, 60, 40);
    let (f, r) = finalize(&realm, p, 1000, START + 10);
    assert_eq!(r, Err(GovernanceError::VotingPeriodNotEnded));
    assert_eq!(f.proposal.state, ProposalState::Voting);
    assert_eq!(f.proposal.voting_completed_at, None);
}

#[test]
fn vote_before_start_time_fails() {
    let realm = make_realm(VoteThreshold::YesVotePercentage(50));
    let proposal = start(make_proposal(&realm, Vec::new()));
    let mut ctx = vote_ctx(&realm, proposal, VoteLedger::new(), 11, 60);
    assert_eq!(ctx.cast_vote(VoteType::Yes, START - 1), Err(GovernanceError::ProposalNotInVotingState));
}

#[test]
fn vote_on_draft_fails() {
    let realm = make_realm(VoteThreshold::YesVotePercentage(50));
    let proposal = make_proposal(&realm, Vec::new());
    let mut ctx = vote_ctx(&realm, proposal, VoteLedger::new(), 11, 60);
    assert_eq!(ctx.cast_vote(VoteType::Yes, START), Err(GovernanceError::ProposalNotInVotingState));
    assert_eq!(ctx.proposal.state, ProposalState::Draft);
}

#[test]
fn vote_overflow_is_reported() {
    let realm = make_realm(VoteThreshold::YesVotePercentage(50));
    let proposal = start(make_proposal(&realm, Vec::new()));
    let mut ctx = vote_ctx(&realm, proposal, VoteLedger::new(), 11, u64::MAX);
    assert_eq!(ctx.cast_vote(VoteType::Yes, START + 1), Ok(()));
    let mut ctx = vote_ctx(&realm, ctx.proposal, ctx.vote_records, 12, 1);
    assert_eq!(ctx.cast_vote(VoteType::Yes, START + 2), Err(GovernanceError::ArithmeticOverflow));
    assert_eq!(ctx.proposal.vote_yes, u64::MAX);
    assert_eq!(ctx.vote_records.len(), 1);
}

#[test]
fn vote_in_other_realm_fails() {
    let realm = make_realm(VoteThreshold::YesVotePercentage(50));
    let proposal = start(make_proposal(&realm, Vec::new()));
    let mut ctx = vote_ctx(&realm, proposal, VoteLedger::new(), 11, 60);
    ctx.governance_realm_key = key(101);
    assert_eq!(ctx.cast_vote(VoteType::Yes, START + 1), Err(GovernanceError::RealmMismatch));
}

#[test]
fn tallies_only_grow_while_voting() {
    let realm = make_realm(VoteThreshold::YesVotePercentage(50));
    let p = voted(&realm, 5, 7);
    assert_eq!((p.vote_yes, p.vote_no), (5, 7));
    let (f, _) = finalize(&realm, p, 1000, after_window());
    let mut ctx = vote_ctx(&realm, f.proposal, VoteLedger::new(), 13, 100);
    assert_eq!(ctx.cast_vote(VoteType::Yes, after_window()), Err(GovernanceError::ProposalNotInVotingState));
    assert_eq!((ctx.proposal.vote_yes, ctx.proposal.vote_no), (5, 7));
}

#[test]
fn finalize_twice_fails() {
    let realm = make_realm(VoteThreshold::YesVotePercentage(50));
    let p = voted(&realm, 60, 40);
    let (mut f, r) = finalize(&realm, p, 1000, after_window());
    assert_eq!(r, Ok(()));
    assert_eq!(f.finalize_vote(after_window() + 5), Err(GovernanceError::ProposalNotInVotingState));
    assert_eq!(f.proposal.state, ProposalState::Succeeded);
    assert_eq!(f.proposal.voting_completed_at, Some(after_window()));
}

#[test]
fn start_voting_by_stranger_is_unauthorized() {
    let realm = make_realm(VoteThreshold::YesVotePercentage(50));
    let proposal = make_proposal(&realm, Vec::new());
    let mut ctx = StartVoting { proposer: key(2), governance_realm_key: realm_key(), proposal };
    assert_eq!(ctx.start_voting(START), Err(GovernanceError::Unauthorized));
    assert_eq!(ctx.proposal.state, ProposalState::Draft);
    assert_eq!(ctx.proposal.voting_at, None);
}

#[test]
fn start_voting_twice_is_invalid_transition() {
    let realm = make_realm(VoteThreshold::YesVotePercentage(50));
    let proposal = start(make_proposal(&realm, Vec::new()));
    assert_eq!(proposal.voting_at, Some(START));
    let mut ctx = StartVoting { proposer: proposer(), governance_realm_key: realm_key(), proposal };
    assert_eq!(ctx.start_voting(START + 5), Err(GovernanceError::InvalidProposalStateTransition));
    assert_eq!(ctx.proposal.voting_at, Some(START));
}

#[test]
fn scenario_unresolvable_account_leaves_executing() {
    let proposal = succeeded_proposal(vec![action(vec![key(600)])]);
    let mut ctx = ExecuteProposal { executor: key(77), governance_realm_key: realm_key(), proposal };
    assert_eq!(ctx.execute_proposal(START + 9000), Ok(()));
    assert_eq!(ctx.proposal.state, ProposalState::Executing);
    assert_eq!(ctx.proposal.executing_at, Some(START + 9000));
    let available = vec![key(601)];
    assert_eq!(ctx.next_instruction(&available), Err(GovernanceError::ProposalExecutionFailed));
    assert_eq!(ctx.proposal.state, ProposalState::Executing);
    assert_eq!(ctx.execute_proposal(START + 9001), Err(GovernanceError::ProposalNotSucceeded));
    assert_eq!(ctx.proposal.state, ProposalState::Executing);
}

#[test]
fn execution_runs_actions_in_order_then_completes() {
    let proposal = succeeded_proposal(vec![action(vec![key(600)]), action(vec![key(601), key(600)])]);
    let mut ctx = ExecuteProposal { executor: key(77), governance_realm_key: realm_key(), proposal };
    assert_eq!(ctx.execute_proposal(START + 9000), Ok(()));
    let available = vec![key(601), key(600)];
    assert_eq!(ctx.next_instruction(&available), Ok(Some(0)));
    assert_eq!(ctx.complete_instruction(true), Ok(()));
    assert_eq!(ctx.next_instruction(&available), Ok(Some(1)));
    assert_eq!(ctx.complete_instruction(true), Ok(()));
    assert_eq!(ctx.next_instruction(&available), Ok(None));
    assert_eq!(ctx.proposal.state, ProposalState::Completed);
    assert_eq!(ctx.complete_instruction(true), Err(GovernanceError::InvalidProposalStateTransition));
}

#[test]
fn failed_action_stops_execution() {
    let proposal = succeeded_proposal(vec![action(vec![]), action(vec![])]);
    let mut ctx = ExecuteProposal { executor: key(77), governance_realm_key: realm_key(), proposal };
    assert_eq!(ctx.execute_proposal(START + 9000), Ok(()));
    assert_eq!(ctx.next_instruction(&Vec::new()), Ok(Some(0)));
    assert_eq!(ctx.complete_instruction(false), Err(GovernanceError::ProposalExecutionFailed));
    assert_eq!(ctx.proposal.state, ProposalState::Executing);
    assert_eq!(ctx.proposal.executed_instructions, 0);
}

#[test]
fn empty_action_list_completes() {
    let proposal = succeeded_proposal(Vec::new());
    let mut ctx = ExecuteProposal { executor: key(77), governance_realm_key: realm_key(), proposal };
    assert_eq!(ctx.execute_proposal(START + 9000), Ok(()));
    assert_eq!(ctx.next_instruction(&Vec::new()), Ok(None));
    assert_eq!(ctx.proposal.state, ProposalState::Completed);
}

#[test]
fn execute_defeated_proposal_fails() {
    let realm = make_realm(VoteThreshold::YesVotePercentage(50));
    let p = voted(&realm, 40, 60);
    let (f, _) = finalize(&realm, p, 1000, after_window());
    let mut ctx = ExecuteProposal { executor: key(77), governance_realm_key: realm_key(), proposal: f.proposal };
    assert_eq!(ctx.execute_proposal(START + 9000), Err(GovernanceError::ProposalNotSucceeded));
    assert_eq!(ctx.proposal.state, ProposalState::Defeated);
    assert_eq!(ctx.proposal.executing_at, None);
}

#[test]
fn next_instruction_before_execution_fails() {
    let realm = make_realm(VoteThreshold::YesVotePercentage(50));
    let proposal = make_proposal(&realm, Vec::new());
    let mut ctx = ExecuteProposal { executor: key(77), governance_realm_key: realm_key(), proposal };
    assert_eq!(ctx.next_instruction(&Vec::new()), Err(GovernanceError::InvalidProposalStateTransition));
    assert_eq!(ctx.proposal.state, ProposalState::Draft);
}

#[test]
fn voting_predicates_at_boundaries() {
    let realm = make_realm(VoteThreshold::YesVotePercentage(50));
    let draft = make_proposal(&realm, Vec::new());
    assert!(!draft.can_vote(START));
    assert!(!draft.is_voting_expired(i64::MAX, WINDOW));
    let open = start(draft);
    assert!(!open.can_vote(START - 1));
    assert!(open.can_vote(START));
    assert!(!open.is_voting_expired(START + WINDOW as i64, WINDOW));
    assert!(open.is_voting_expired(START + WINDOW as i64 + 1, WINDOW));
    let mut late = open.clone();
    late.voting_at = Some(i64::MAX);
    assert!(!late.is_voting_expired(i64::MAX, u32::MAX));
    assert!(late.can_vote(i64::MAX));
}

#[test]
fn calculate_vote_result_uses_tallies() {
    let realm = make_realm(VoteThreshold::YesVotePercentage(50));
    let p = voted(&realm, 60, 40);
    assert!(p.calculate_vote_result(0, &VoteThreshold::YesVotePercentage(60)));
    assert!(!p.calculate_vote_result(0, &VoteThreshold::YesVotePercentage(61)));
    assert!(p.calculate_vote_result(500, &VoteThreshold::QuorumPercentage(20)));
    assert!(p.calculate_vote_result(504, &VoteThreshold::QuorumPercentage(20)));
    assert!(!p.calculate_vote_result(505, &VoteThreshold::QuorumPercentage(20)));
}

#[test]
fn duplicate_vote_reported_before_overflow() {
    let realm = make_realm(VoteThreshold::YesVotePercentage(50));
    let proposal = start(make_proposal(&realm, Vec::new()));
    let mut ctx = vote_ctx(&realm, proposal, VoteLedger::new(), 11, u64::MAX);
    assert_eq!(ctx.cast_vote(VoteType::Yes, START + 1), Ok(()));
    assert_eq!(ctx.cast_vote(VoteType::Yes, START + 2), Err(GovernanceError::AlreadyVoted));
    assert_eq!(ctx.proposal.vote_yes, u64::MAX);
}

#[test]
fn late_duplicate_vote_reports_window_end() {
    let realm = make_realm(VoteThreshold::YesVotePercentage(50));
    let proposal = start(make_proposal(&realm, Vec::new()));
    let mut ctx = vote_ctx(&realm, proposal, VoteLedger::new(), 11, 5);
    assert_eq!(ctx.cast_vote(VoteType::No, START + 1), Ok(()));
    assert_eq!(ctx.cast_vote(VoteType::No, after_window()), Err(GovernanceError::VotingPeriodEnded));
    assert_eq!(ctx.proposal.vote_no, 5);
}

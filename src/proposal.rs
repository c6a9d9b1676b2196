use vstd::prelude::*;
use crate::pubkey::Pubkey;
use crate::realm::{byte_len, VoteThreshold};
use crate::threshold::{evaluate, vote_passes};

verus! {

/// Longest proposal title, in UTF-8 bytes.
pub const MAX_TITLE_LEN: usize = 100;

/// Longest proposal description, in UTF-8 bytes.
pub const MAX_DESCRIPTION_LEN: usize = 500;

/// Most actions a proposal may carry.
pub const MAX_INSTRUCTIONS: usize = 10;

/// Most account references one action may carry.
pub const MAX_ACCOUNTS_PER_INSTRUCTION: usize = 20;

/// Longest payload of one action, in bytes.
pub const MAX_INSTRUCTION_DATA_LEN: usize = 1000;

/// Where a proposal stands in its lifecycle.
#[derive(Clone, Copy, Debug, PartialEq, Eq, Structural)]
pub enum ProposalState {
    Draft,
    Voting,
    Succeeded,
    Defeated,
    Executing,
    Completed,
    Cancelled,
}

/// One account reference of an action.
#[derive(Clone, Copy, Debug, PartialEq, Eq, Structural)]
pub struct ProposalAccountMeta {
    pub pubkey: Pubkey,
    pub is_signer: bool,
    pub is_writable: bool,
}

/// One action: a target program, the accounts it touches and its payload.
#[derive(Clone, Debug)]
pub struct ProposalInstruction {
    pub program_id: Pubkey,
    pub accounts: Vec<ProposalAccountMeta>,
    pub data: Vec<u8>,
}

impl ProposalInstruction {
    /// An action fits its stored bounds.
    pub open spec fn wf(&self) -> bool {
        &&& self.accounts@.len() <= MAX_ACCOUNTS_PER_INSTRUCTION
        &&& self.data@.len() <= MAX_INSTRUCTION_DATA_LEN
    }

    /// Every account the action references is among `available`.
    pub open spec fn resolvable(&self, available: Seq<Pubkey>) -> bool {
        forall|k: int|
            0 <= k < self.accounts@.len() ==> #[trigger] available.contains(self.accounts@[k].pubkey)
    }
}

/// The moves of the lifecycle graph; staying in place is always allowed.
pub open spec fn transition_allowed(from: ProposalState, to: ProposalState) -> bool {
    ||| from == to
    ||| from == ProposalState::Draft && to == ProposalState::Voting
    ||| from == ProposalState::Voting && to == ProposalState::Succeeded
    ||| from == ProposalState::Voting && to == ProposalState::Defeated
    ||| from == ProposalState::Succeeded && to == ProposalState::Executing
    ||| from == ProposalState::Executing && to == ProposalState::Completed
}

/// States that no transition leaves.
pub open spec fn is_terminal(s: ProposalState) -> bool {
    ||| s == ProposalState::Completed
    ||| s == ProposalState::Defeated
    ||| s == ProposalState::Cancelled
}

/// No move of the graph leaves a terminal state.
pub proof fn terminal_states_are_final(from: ProposalState, to: ProposalState)
    requires
        is_terminal(from),
        transition_allowed(from, to),
    ensures
        to == from,
{
}

/// A governance decision: its text, its tallies, its state and its actions.
#[derive(Clone, Debug)]
pub struct Proposal {
    pub realm: Pubkey,
    pub proposer: Pubkey,
    pub title: String,
    pub description: String,
    pub vote_yes: u64,
    pub vote_no: u64,
    pub state: ProposalState,
    pub voting_at: Option<i64>,
    pub voting_completed_at: Option<i64>,
    pub executing_at: Option<i64>,
    pub instructions: Vec<ProposalInstruction>,
    /// How many actions, from the first, have been carried out.
    pub executed_instructions: usize,
    pub bump: u8,
}

/// Going from `before` to `after`, neither tally decreases, and the tallies
/// change only while the proposal is, and stays, in `Voting`.
pub open spec fn tallies_step_ok(before: Proposal, after: Proposal) -> bool {
    &&& after.vote_yes >= before.vote_yes
    &&& after.vote_no >= before.vote_no
    &&& (after.vote_yes != before.vote_yes || after.vote_no != before.vote_no) ==> (
    before.state == ProposalState::Voting && after.state == ProposalState::Voting)
}

/// Going from `before` to `after` follows one move of the lifecycle graph and
/// respects the tally rule.
pub open spec fn step_ok(before: Proposal, after: Proposal) -> bool {
    &&& transition_allowed(before.state, after.state)
    &&& tallies_step_ok(before, after)
}

/// Along any run of operations, each of which is a step as `step_ok`
/// describes, neither tally ever decreases.
pub proof fn tallies_never_decrease(run: Seq<Proposal>, i: int, j: int)
    requires
        forall|k: int| 0 <= k < run.len() - 1 ==> #[trigger] step_ok(run[k], run[k + 1]),
        0 <= i <= j < run.len(),
    ensures
        run[i].vote_yes <= run[j].vote_yes,
        run[i].vote_no <= run[j].vote_no,
    decreases j - i,
{
    if i < j {
        tallies_never_decrease(run, i, j - 1);
        let k = j - 1;
        assert(step_ok(run[k], run[k + 1]));
    }
}

/// Along any run of operations, once a proposal reaches a terminal state it
/// stays there.
pub proof fn terminal_state_persists(run: Seq<Proposal>, i: int, j: int)
    requires
        forall|k: int| 0 <= k < run.len() - 1 ==> #[trigger] step_ok(run[k], run[k + 1]),
        0 <= i <= j < run.len(),
        is_terminal(run[i].state),
    ensures
        run[j].state == run[i].state,
    decreases j - i,
{
    if i < j {
        terminal_state_persists(run, i, j - 1);
        let k = j - 1;
        assert(step_ok(run[k], run[k + 1]));
    }
}

impl Proposal {
    /// A stored proposal fits its bounds, and its execution cursor stays
    /// within its action list.
    pub open spec fn wf(&self) -> bool {
        &&& byte_len(self.title@) <= MAX_TITLE_LEN
        &&& byte_len(self.description@) <= MAX_DESCRIPTION_LEN
        &&& self.instructions@.len() <= MAX_INSTRUCTIONS
        &&& forall|i: int| 0 <= i < self.instructions@.len() ==> #[trigger] self.instructions@[i].wf()
        &&& self.executed_instructions <= self.instructions@.len()
    }

    /// Votes are accepted once voting has started, at or after its start time.
    pub open spec fn spec_can_vote(&self, now: int) -> bool {
        &&& self.state == ProposalState::Voting
        &&& self.voting_at matches Some(t) && now >= t
    }

    /// The window of `duration` seconds from the start of voting has passed.
    pub open spec fn spec_voting_expired(&self, now: int, duration: int) -> bool {
        self.voting_at matches Some(t) && now > t + duration
    }

    pub fn can_vote(&self, current_time: i64) -> (r: bool)
        ensures
            r == self.spec_can_vote(current_time as int),
    {
        self.state == ProposalState::Voting && match self.voting_at {
            Some(voting_time) => current_time >= voting_time,
            None => false,
        }
    }

    pub fn is_voting_expired(&self, current_time: i64, voting_duration: u32) -> (r: bool)
        ensures
            r == self.spec_voting_expired(current_time as int, voting_duration as int),
    {
        match self.voting_at {
            Some(voting_time) => current_time as i128 > voting_time as i128 + voting_duration as i128,
            None => false,
        }
    }

    /// Applies the threshold policy to this proposal's tallies.
    pub fn calculate_vote_result(&self, total_supply: u64, threshold: &VoteThreshold) -> (r: bool)
        ensures
            r == vote_passes(
                self.vote_yes as int,
                self.vote_no as int,
                total_supply as int,
                *threshold,
            ),
    {
        evaluate(self.vote_yes, self.vote_no, total_supply, threshold)
    }
}

} // verus!

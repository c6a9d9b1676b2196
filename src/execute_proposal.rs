use vstd::prelude::*;
use crate::error::GovernanceError;
use crate::proposal::{step_ok, Proposal, ProposalInstruction, ProposalState};
use crate::pubkey::Pubkey;

verus! {

/// What execution reads and writes: the caller, the realm's address and the
/// proposal. The actions themselves are carried out by the caller between the
/// steps below: `execute_proposal` opens execution, `next_instruction` names
/// the next action once its accounts resolve, and `complete_instruction`
/// takes the outcome of carrying it out.
#[derive(Clone, Debug)]
pub struct ExecuteProposal {
    pub executor: Pubkey,
    pub governance_realm_key: Pubkey,
    pub proposal: Proposal,
}

/// Whether `key` is among `available`.
pub fn contains_key(available: &Vec<Pubkey>, key: Pubkey) -> (r: bool)
    ensures
        r == available@.contains(key),
{
    let mut i: usize = 0;
    while i < available.len()
        invariant
            0 <= i <= available@.len(),
            forall|k: int| 0 <= k < i ==> available@[k] != key,
        decreases available@.len() - i,
    {
        if available[i] == key {
            return true;
        }
        i = i + 1;
    }
    false
}

/// Whether every account that `instruction` references is among `available`.
pub fn accounts_resolvable(instruction: &ProposalInstruction, available: &Vec<Pubkey>) -> (r: bool)
    ensures
        r == instruction.resolvable(available@),
{
    let mut i: usize = 0;
    while i < instruction.accounts.len()
        invariant
            0 <= i <= instruction.accounts@.len(),
            forall|k: int|
                0 <= k < i ==> #[trigger] available@.contains(instruction.accounts@[k].pubkey),
        decreases instruction.accounts@.len() - i,
    {
        if !contains_key(available, instruction.accounts[i].pubkey) {
            return false;
        }
        i = i + 1;
    }
    true
}

impl ExecuteProposal {
    /// Moves a succeeded proposal to `Executing`, stamps the start time and
    /// puts the execution cursor on the first action.
    pub fn execute_proposal(&mut self, current_time: i64) -> (r: Result<(), GovernanceError>)
        requires
            old(self).proposal.wf(),
        ensures
            final(self).proposal.wf(),
            step_ok(old(self).proposal, final(self).proposal),
            final(self).executor == old(self).executor,
            final(self).governance_realm_key == old(self).governance_realm_key,
            old(self).proposal.realm != old(self).governance_realm_key ==> r == Err::<
                (),
                GovernanceError,
            >(GovernanceError::RealmMismatch),
            old(self).proposal.realm == old(self).governance_realm_key && old(self).proposal.state
                != ProposalState::Succeeded ==> r == Err::<(), GovernanceError>(
                GovernanceError::ProposalNotSucceeded,
            ),
            r is Err ==> *final(self) == *old(self),
            old(self).proposal.realm == old(self).governance_realm_key && old(self).proposal.state
                == ProposalState::Succeeded ==> r is Ok && final(self).proposal == (Proposal {
                state: ProposalState::Executing,
                executing_at: Some(current_time),
                executed_instructions: 0,
                ..old(self).proposal
            }),
    {
        if self.proposal.realm != self.governance_realm_key {
            return Err(GovernanceError::RealmMismatch);
        }
        if self.proposal.state != ProposalState::Succeeded {
            return Err(GovernanceError::ProposalNotSucceeded);
        }
        self.proposal.state = ProposalState::Executing;
        self.proposal.executing_at = Some(current_time);
        self.proposal.executed_instructions = 0;
        Ok(())
    }

    /// Names the action under the cursor once every account it references is
    /// among `remaining_accounts`. With no action left the proposal becomes
    /// `Completed` and `None` comes back. An unresolvable account fails the
    /// execution and leaves the proposal in `Executing`.
    pub fn next_instruction(&mut self, remaining_accounts: &Vec<Pubkey>) -> (r: Result<
        Option<usize>,
        GovernanceError,
    >)
        requires
            old(self).proposal.wf(),
        ensures
            final(self).proposal.wf(),
            step_ok(old(self).proposal, final(self).proposal),
            final(self).executor == old(self).executor,
            final(self).governance_realm_key == old(self).governance_realm_key,
            r is Err ==> *final(self) == *old(self),
            old(self).proposal.state != ProposalState::Executing ==> r == Err::<
                Option<usize>,
                GovernanceError,
            >(GovernanceError::InvalidProposalStateTransition),
            old(self).proposal.state == ProposalState::Executing
                && old(self).proposal.executed_instructions == old(self).proposal.instructions@.len()
                ==> r == Ok::<Option<usize>, GovernanceError>(None) && final(self).proposal == (
            Proposal { state: ProposalState::Completed, ..old(self).proposal }),
            old(self).proposal.state == ProposalState::Executing
                && old(self).proposal.executed_instructions < old(self).proposal.instructions@.len()
                ==> {
                let ix = old(self).proposal.instructions@[old(self).proposal.executed_instructions as int];
                &&& ix.resolvable(remaining_accounts@) ==> r == Ok::<Option<usize>, GovernanceError>(
                    Some(old(self).proposal.executed_instructions),
                ) && *final(self) == *old(self)
                &&& !ix.resolvable(remaining_accounts@) ==> r == Err::<Option<usize>, GovernanceError>(
                    GovernanceError::ProposalExecutionFailed,
                )
            },
    {
        if self.proposal.state != ProposalState::Executing {
            return Err(GovernanceError::InvalidProposalStateTransition);
        }
        let cursor = self.proposal.executed_instructions;
        if cursor == self.proposal.instructions.len() {
            self.proposal.state = ProposalState::Completed;
            return Ok(None);
        }
        if !accounts_resolvable(&self.proposal.instructions[cursor], remaining_accounts) {
            return Err(GovernanceError::ProposalExecutionFailed);
        }
        Ok(Some(cursor))
    }

    /// Takes the outcome of carrying out the action under the cursor: on
    /// success the cursor moves on; on failure execution stops with the
    /// proposal left in `Executing`.
    pub fn complete_instruction(&mut self, succeeded: bool) -> (r: Result<(), GovernanceError>)
        requires
            old(self).proposal.wf(),
        ensures
            final(self).proposal.wf(),
            step_ok(old(self).proposal, final(self).proposal),
            final(self).executor == old(self).executor,
            final(self).governance_realm_key == old(self).governance_realm_key,
            r is Err ==> *final(self) == *old(self),
            old(self).proposal.state != ProposalState::Executing
                || old(self).proposal.executed_instructions == old(self).proposal.instructions@.len()
                ==> r == Err::<(), GovernanceError>(GovernanceError::InvalidProposalStateTransition),
            old(self).proposal.state == ProposalState::Executing
                && old(self).proposal.executed_instructions < old(self).proposal.instructions@.len()
                ==> {
                &&& !succeeded ==> r == Err::<(), GovernanceError>(
                    GovernanceError::ProposalExecutionFailed,
                )
                &&& succeeded ==> r is Ok && final(self).proposal == (Proposal {
                    executed_instructions: (old(self).proposal.executed_instructions + 1) as usize,
                    ..old(self).proposal
                })
            },
    {
        if self.proposal.state != ProposalState::Executing
            || self.proposal.executed_instructions == self.proposal.instructions.len() {
            return Err(GovernanceError::InvalidProposalStateTransition);
        }
        if !succeeded {
            return Err(GovernanceError::ProposalExecutionFailed);
        }
        self.proposal.executed_instructions = self.proposal.executed_instructions + 1;
        Ok(())
    }
}

} // verus!

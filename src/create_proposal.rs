use vstd::prelude::*;
use crate::error::GovernanceError;
use crate::proposal::{
    Proposal,
    ProposalInstruction,
    ProposalState,
    MAX_ACCOUNTS_PER_INSTRUCTION,
    MAX_DESCRIPTION_LEN,
    MAX_INSTRUCTIONS,
    MAX_INSTRUCTION_DATA_LEN,
    MAX_TITLE_LEN,
};
use crate::pubkey::Pubkey;
use crate::realm::{byte_len, GovernanceRealm};

verus! {

/// What creating a proposal reads and writes: the proposer and their token
/// weight read at this moment, the realm and its address, and the bump of the
/// new proposal's address.
#[derive(Clone, Debug)]
pub struct CreateProposal {
    pub proposer: Pubkey,
    pub proposer_weight: u64,
    pub governance_realm: GovernanceRealm,
    pub governance_realm_key: Pubkey,
    pub proposal_bump: u8,
}

/// Title, description and actions fit the bounds a stored proposal keeps.
pub open spec fn proposal_data_fits(
    title: Seq<char>,
    description: Seq<char>,
    instructions: Seq<ProposalInstruction>,
) -> bool {
    &&& byte_len(title) <= MAX_TITLE_LEN
    &&& byte_len(description) <= MAX_DESCRIPTION_LEN
    &&& instructions.len() <= MAX_INSTRUCTIONS
    &&& forall|i: int| 0 <= i < instructions.len() ==> #[trigger] instructions[i].wf()
}

/// Whether every action fits its bounds.
pub fn instructions_fit(instructions: &Vec<ProposalInstruction>) -> (r: bool)
    ensures
        r == forall|i: int| 0 <= i < instructions@.len() ==> #[trigger] instructions@[i].wf(),
{
    let mut i: usize = 0;
    while i < instructions.len()
        invariant
            0 <= i <= instructions@.len(),
            forall|k: int| 0 <= k < i ==> #[trigger] instructions@[k].wf(),
        decreases instructions@.len() - i,
    {
        if instructions[i].accounts.len() > MAX_ACCOUNTS_PER_INSTRUCTION
            || instructions[i].data.len() > MAX_INSTRUCTION_DATA_LEN {
            assert(!instructions@[i as int].wf());
            return false;
        }
        i = i + 1;
    }
    true
}

/// The error creating a proposal meets, in the order the checks are made.
pub open spec fn create_proposal_error(
    c: CreateProposal,
    title: Seq<char>,
    description: Seq<char>,
    instructions: Seq<ProposalInstruction>,
) -> Option<GovernanceError> {
    if c.proposer_weight < c.governance_realm.config.min_community_weight_to_create_proposal {
        Some(GovernanceError::InsufficientTokensToCreateProposal)
    } else if !proposal_data_fits(title, description, instructions) {
        Some(GovernanceError::DataTooLarge)
    } else if c.governance_realm.voting_proposal_count == u32::MAX {
        Some(GovernanceError::ArithmeticOverflow)
    } else {
        None
    }
}

impl CreateProposal {
    /// Builds a `Draft` proposal with zero tallies from a holder of enough
    /// weight, and counts it in the realm.
    pub fn create_proposal(
        &mut self,
        title: String,
        description: String,
        instructions: Vec<ProposalInstruction>,
    ) -> (r: Result<Proposal, GovernanceError>)
        ensures
            r matches Err(e) ==> create_proposal_error(
                *old(self),
                title@,
                description@,
                instructions@,
            ) == Some(e) && *final(self) == *old(self),
            r is Ok <==> create_proposal_error(*old(self), title@, description@, instructions@) is None,
            r matches Ok(p) ==> {
                &&& p.wf()
                &&& p.realm == old(self).governance_realm_key
                &&& p.proposer == old(self).proposer
                &&& p.title@ == title@
                &&& p.description@ == description@
                &&& p.vote_yes == 0
                &&& p.vote_no == 0
                &&& p.state == ProposalState::Draft
                &&& p.voting_at is None
                &&& p.voting_completed_at is None
                &&& p.executing_at is None
                &&& p.instructions@ == instructions@
                &&& p.executed_instructions == 0
                &&& p.bump == old(self).proposal_bump
                &&& final(self).governance_realm == (GovernanceRealm {
                    voting_proposal_count: (old(self).governance_realm.voting_proposal_count
                        + 1) as u32,
                    ..old(self).governance_realm
                })
                &&& final(self).proposer == old(self).proposer
                &&& final(self).proposer_weight == old(self).proposer_weight
                &&& final(self).governance_realm_key == old(self).governance_realm_key
                &&& final(self).proposal_bump == old(self).proposal_bump
            },
    {
        if !self.governance_realm.can_create_proposal(self.proposer_weight) {
            return Err(GovernanceError::InsufficientTokensToCreateProposal);
        }
        if title.as_str().len() > MAX_TITLE_LEN || description.as_str().len() > MAX_DESCRIPTION_LEN
            || instructions.len() > MAX_INSTRUCTIONS || !instructions_fit(&instructions) {
            return Err(GovernanceError::DataTooLarge);
        }
        if self.governance_realm.voting_proposal_count == u32::MAX {
            return Err(GovernanceError::ArithmeticOverflow);
        }
        let proposal = Proposal {
            realm: self.governance_realm_key,
            proposer: self.proposer,
            title,
            description,
            vote_yes: 0,
            vote_no: 0,
            state: ProposalState::Draft,
            voting_at: None,
            voting_completed_at: None,
            executing_at: None,
            instructions,
            executed_instructions: 0,
            bump: self.proposal_bump,
        };
        self.governance_realm.voting_proposal_count = self.governance_realm.voting_proposal_count + 1;
        Ok(proposal)
    }
}

} // verus!

use vstd::prelude::*;
use crate::error::GovernanceError;
use crate::proposal::{step_ok, Proposal, ProposalState};
use crate::pubkey::Pubkey;

verus! {

/// What opening the vote reads and writes: the caller, the realm's address and
/// the proposal.
#[derive(Clone, Debug)]
pub struct StartVoting {
    pub proposer: Pubkey,
    pub governance_realm_key: Pubkey,
    pub proposal: Proposal,
}

/// The error opening the vote meets, in the order the checks are made.
pub open spec fn start_voting_error(c: StartVoting) -> Option<GovernanceError> {
    if c.proposal.realm != c.governance_realm_key {
        Some(GovernanceError::RealmMismatch)
    } else if c.proposal.proposer != c.proposer {
        Some(GovernanceError::Unauthorized)
    } else if c.proposal.state != ProposalState::Draft {
        Some(GovernanceError::InvalidProposalStateTransition)
    } else {
        None
    }
}

impl StartVoting {
    /// The proposer moves their draft to `Voting`, stamping the start time.
    pub fn start_voting(&mut self, current_time: i64) -> (r: Result<(), GovernanceError>)
        ensures
            step_ok(old(self).proposal, final(self).proposal),
            old(self).proposal.wf() ==> final(self).proposal.wf(),
            final(self).proposer == old(self).proposer,
            final(self).governance_realm_key == old(self).governance_realm_key,
            r matches Err(e) ==> start_voting_error(*old(self)) == Some(e) && *final(self)
                == *old(self),
            r is Ok <==> start_voting_error(*old(self)) is None,
            r is Ok ==> final(self).proposal == (Proposal {
                state: ProposalState::Voting,
                voting_at: Some(current_time),
                ..old(self).proposal
            }),
    {
        if self.proposal.realm != self.governance_realm_key {
            return Err(GovernanceError::RealmMismatch);
        }
        if self.proposal.proposer != self.proposer {
            return Err(GovernanceError::Unauthorized);
        }
        if self.proposal.state != ProposalState::Draft {
            return Err(GovernanceError::InvalidProposalStateTransition);
        }
        self.proposal.state = ProposalState::Voting;
        self.proposal.voting_at = Some(current_time);
        Ok(())
    }
}

} // verus!

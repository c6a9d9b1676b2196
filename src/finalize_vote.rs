use vstd::prelude::*;
use crate::error::GovernanceError;
use crate::proposal::{step_ok, Proposal, ProposalState};
use crate::pubkey::Pubkey;
use crate::realm::GovernanceRealm;
use crate::threshold::vote_passes;

verus! {

/// What closing the vote reads and writes: the caller, the realm, the proposal
/// and the governance token's total supply read at this moment.
#[derive(Clone, Debug)]
pub struct FinalizeVote {
    pub finalizer: Pubkey,
    pub governance_realm: GovernanceRealm,
    pub governance_realm_key: Pubkey,
    pub proposal: Proposal,
    pub total_supply: u64,
}

/// The error closing the vote at time `now` meets, in the order the checks are made.
pub open spec fn finalize_vote_error(c: FinalizeVote, now: int) -> Option<GovernanceError> {
    if c.proposal.realm != c.governance_realm_key {
        Some(GovernanceError::RealmMismatch)
    } else if c.proposal.state != ProposalState::Voting {
        Some(GovernanceError::ProposalNotInVotingState)
    } else if !c.proposal.spec_voting_expired(now, c.governance_realm.config.voting_base_time as int) {
        Some(GovernanceError::VotingPeriodNotEnded)
    } else {
        None
    }
}

/// The state a closed vote leads to.
pub open spec fn outcome_state(c: FinalizeVote) -> ProposalState {
    if vote_passes(
        c.proposal.vote_yes as int,
        c.proposal.vote_no as int,
        c.total_supply as int,
        c.governance_realm.config.community_vote_threshold,
    ) {
        ProposalState::Succeeded
    } else {
        ProposalState::Defeated
    }
}

impl FinalizeVote {
    /// Once the window has passed, decides the proposal by the realm's
    /// threshold policy and stamps the completion time. Open to any caller.
    pub fn finalize_vote(&mut self, current_time: i64) -> (r: Result<(), GovernanceError>)
        ensures
            step_ok(old(self).proposal, final(self).proposal),
            old(self).proposal.wf() ==> final(self).proposal.wf(),
            final(self).finalizer == old(self).finalizer,
            final(self).governance_realm == old(self).governance_realm,
            final(self).governance_realm_key == old(self).governance_realm_key,
            final(self).total_supply == old(self).total_supply,
            r matches Err(e) ==> finalize_vote_error(*old(self), current_time as int) == Some(e)
                && *final(self) == *old(self),
            r is Ok <==> finalize_vote_error(*old(self), current_time as int) is None,
            r is Ok ==> final(self).proposal == (Proposal {
                state: outcome_state(*old(self)),
                voting_completed_at: Some(current_time),
                ..old(self).proposal
            }),
    {
        if self.proposal.realm != self.governance_realm_key {
            return Err(GovernanceError::RealmMismatch);
        }
        if self.proposal.state != ProposalState::Voting {
            return Err(GovernanceError::ProposalNotInVotingState);
        }
        if !self.proposal.is_voting_expired(current_time, self.governance_realm.config.voting_base_time) {
            return Err(GovernanceError::VotingPeriodNotEnded);
        }
        let vote_passed = self.proposal.calculate_vote_result(
            self.total_supply,
            &self.governance_realm.config.community_vote_threshold,
        );
        self.proposal.voting_completed_at = Some(current_time);
        if vote_passed {
            self.proposal.state = ProposalState::Succeeded;
        } else {
            self.proposal.state = ProposalState::Defeated;
        }
        Ok(())
    }
}

} // verus!

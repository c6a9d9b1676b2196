use vstd::prelude::*;
use crate::error::GovernanceError;
use crate::proposal::{step_ok, Proposal};
use crate::pubkey::Pubkey;
use crate::realm::GovernanceRealm;
use crate::vote_record::{VoteLedger, VoteRecord, VoteType};

verus! {

/// What a vote reads and writes: the voter and the weight captured for them at
/// vote time, the realm, the proposal, and the ledger of vote records.
#[derive(Clone, Debug)]
pub struct CastVote {
    pub voter: Pubkey,
    pub voter_weight: u64,
    pub governance_realm: GovernanceRealm,
    pub governance_realm_key: Pubkey,
    pub proposal: Proposal,
    pub proposal_key: Pubkey,
    pub vote_records: VoteLedger,
    pub vote_record_bump: u8,
}

/// The tallies after a vote of `weight` for `vote`, over the integers.
pub open spec fn tallies_after(yes: int, no: int, vote: VoteType, weight: int) -> (int, int) {
    match vote {
        VoteType::Yes => (yes + weight, no),
        VoteType::No => (yes, no + weight),
        VoteType::Abstain => (yes, no),
    }
}

/// The error a vote of `vote` at time `now` meets, in the order the checks are made.
pub open spec fn cast_vote_error(c: CastVote, vote: VoteType, now: int) -> Option<GovernanceError> {
    let t = tallies_after(c.proposal.vote_yes as int, c.proposal.vote_no as int, vote, c.voter_weight as int);
    if c.proposal.realm != c.governance_realm_key {
        Some(GovernanceError::RealmMismatch)
    } else if !c.proposal.spec_can_vote(now) {
        Some(GovernanceError::ProposalNotInVotingState)
    } else if c.proposal.spec_voting_expired(now, c.governance_realm.config.voting_base_time as int) {
        Some(GovernanceError::VotingPeriodEnded)
    } else if c.vote_records.has_vote(c.proposal_key, c.voter) {
        Some(GovernanceError::AlreadyVoted)
    } else if t.0 > u64::MAX || t.1 > u64::MAX {
        Some(GovernanceError::ArithmeticOverflow)
    } else {
        None
    }
}

impl CastVote {
    /// Records the voter's vote and adds their weight to the chosen tally.
    /// An abstention changes no tally but is still recorded, so the voter
    /// cannot vote again. Any failure leaves everything as it was.
    pub fn cast_vote(&mut self, vote: VoteType, current_time: i64) -> (r: Result<(), GovernanceError>)
        requires
            old(self).vote_records.wf(),
        ensures
            final(self).vote_records.wf(),
            step_ok(old(self).proposal, final(self).proposal),
            old(self).proposal.wf() ==> final(self).proposal.wf(),
            r matches Err(e) ==> cast_vote_error(*old(self), vote, current_time as int) == Some(e)
                && *final(self) == *old(self),
            r is Ok <==> cast_vote_error(*old(self), vote, current_time as int) is None,
            r is Ok ==> {
                let t = tallies_after(
                    old(self).proposal.vote_yes as int,
                    old(self).proposal.vote_no as int,
                    vote,
                    old(self).voter_weight as int,
                );
                &&& final(self).proposal == (Proposal {
                    vote_yes: t.0 as u64,
                    vote_no: t.1 as u64,
                    ..old(self).proposal
                })
                &&& final(self).vote_records.records@ == old(self).vote_records.records@.push(
                    (VoteRecord {
                        proposal: old(self).proposal_key,
                        voter: old(self).voter,
                        vote_weight: old(self).voter_weight,
                        vote_type: vote,
                        voted_at: current_time,
                        bump: old(self).vote_record_bump,
                    }),
                )
                &&& final(self).voter == old(self).voter
                &&& final(self).voter_weight == old(self).voter_weight
                &&& final(self).governance_realm == old(self).governance_realm
                &&& final(self).governance_realm_key == old(self).governance_realm_key
                &&& final(self).proposal_key == old(self).proposal_key
                &&& final(self).vote_record_bump == old(self).vote_record_bump
            },
    {
        if self.proposal.realm != self.governance_realm_key {
            return Err(GovernanceError::RealmMismatch);
        }
        if !self.proposal.can_vote(current_time) {
            return Err(GovernanceError::ProposalNotInVotingState);
        }
        if self.proposal.is_voting_expired(current_time, self.governance_realm.config.voting_base_time) {
            return Err(GovernanceError::VotingPeriodEnded);
        }
        if self.vote_records.find(self.proposal_key, self.voter).is_some() {
            return Err(GovernanceError::AlreadyVoted);
        }
        let vote_weight = self.voter_weight;
        let mut vote_yes = self.proposal.vote_yes;
        let mut vote_no = self.proposal.vote_no;
        match vote {
            VoteType::Yes => match vote_yes.checked_add(vote_weight) {
                Some(v) => vote_yes = v,
                None => return Err(GovernanceError::ArithmeticOverflow),
            },
            VoteType::No => match vote_no.checked_add(vote_weight) {
                Some(v) => vote_no = v,
                None => return Err(GovernanceError::ArithmeticOverflow),
            },
            VoteType::Abstain => {},
        }
        let record = VoteRecord {
            proposal: self.proposal_key,
            voter: self.voter,
            vote_weight,
            vote_type: vote,
            voted_at: current_time,
            bump: self.vote_record_bump,
        };
        // The ledger itself refuses a second record for the pair as well.
        self.vote_records.insert(record)?;
        self.proposal.vote_yes = vote_yes;
        self.proposal.vote_no = vote_no;
        Ok(())
    }
}

} // verus!

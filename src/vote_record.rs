use vstd::prelude::*;
use crate::error::GovernanceError;
use crate::pubkey::Pubkey;

verus! {

/// A voter's choice.
#[derive(Clone, Copy, Debug, PartialEq, Eq, Structural)]
pub enum VoteType {
    Yes,
    No,
    Abstain,
}

/// The record of one voter's vote on one proposal.
#[derive(Clone, Copy, Debug, PartialEq, Eq, Structural)]
pub struct VoteRecord {
    pub proposal: Pubkey,
    pub voter: Pubkey,
    pub vote_weight: u64,
    pub vote_type: VoteType,
    pub voted_at: i64,
    pub bump: u8,
}

/// The store of vote records, keyed by the (proposal, voter) pair.
#[derive(Clone, Debug)]
pub struct VoteLedger {
    pub records: Vec<VoteRecord>,
}

impl VoteLedger {
    /// No two records share a (proposal, voter) pair.
    pub open spec fn wf(&self) -> bool {
        forall|i: int, j: int|
            0 <= i < self.records@.len() && 0 <= j < self.records@.len() && i != j ==> !(
            #[trigger] self.records@[i].proposal == #[trigger] self.records@[j].proposal
                && self.records@[i].voter == self.records@[j].voter)
    }

    /// A record exists for this pair.
    pub open spec fn has_vote(&self, proposal: Pubkey, voter: Pubkey) -> bool {
        exists|i: int|
            0 <= i < self.records@.len() && #[trigger] self.records@[i].proposal == proposal
                && self.records@[i].voter == voter
    }

    pub fn new() -> (r: VoteLedger)
        ensures
            r.wf(),
            r.records@.len() == 0,
    {
        VoteLedger { records: Vec::new() }
    }

    /// Number of records held.
    pub fn len(&self) -> (r: usize)
        ensures
            r == self.records@.len(),
    {
        self.records.len()
    }

    /// The position of the record for this pair, if there is one.
    pub fn find(&self, proposal: Pubkey, voter: Pubkey) -> (r: Option<usize>)
        ensures
            r matches Some(i) ==> i < self.records@.len() && self.records@[i as int].proposal
                == proposal && self.records@[i as int].voter == voter,
            r is None <==> !self.has_vote(proposal, voter),
    {
        let mut i: usize = 0;
        while i < self.records.len()
            invariant
                0 <= i <= self.records@.len(),
                forall|k: int|
                    0 <= k < i ==> !(#[trigger] self.records@[k].proposal == proposal
                        && self.records@[k].voter == voter),
            decreases self.records@.len() - i,
        {
            if self.records[i].proposal == proposal && self.records[i].voter == voter {
                return Some(i);
            }
            i = i + 1;
        }
        None
    }

    /// Adds `record`, unless its pair already has one: the key collides and
    /// the ledger is left as it was.
    pub fn insert(&mut self, record: VoteRecord) -> (r: Result<(), GovernanceError>)
        requires
            old(self).wf(),
        ensures
            final(self).wf(),
            r is Err <==> old(self).has_vote(record.proposal, record.voter),
            r matches Err(e) ==> e == GovernanceError::AlreadyVoted && *final(self) == *old(self),
            r is Ok ==> final(self).records@ == old(self).records@.push(record),
    {
        match self.find(record.proposal, record.voter) {
            Some(_) => Err(GovernanceError::AlreadyVoted),
            None => {
                self.records.push(record);
                assert(forall|k: int|
                    0 <= k < old(self).records@.len() ==> self.records@[k] == old(self).records@[k]);
                Ok(())
            },
        }
    }
}

/// However the calls were ordered, a well-formed ledger holds at most one
/// record for any (proposal, voter) pair.
pub proof fn at_most_one_vote_record(ledger: VoteLedger, i: int, j: int)
    requires
        ledger.wf(),
        0 <= i < ledger.records@.len(),
        0 <= j < ledger.records@.len(),
        ledger.records@[i].proposal == ledger.records@[j].proposal,
        ledger.records@[i].voter == ledger.records@[j].voter,
    ensures
        i == j,
{
}

} // verus!

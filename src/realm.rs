use vstd::prelude::*;
use crate::constants::{MAX_VOTING_TIME, MAX_YES_VOTE_THRESHOLD, MIN_VOTING_TIME, MIN_YES_VOTE_THRESHOLD};
use crate::pubkey::Pubkey;

verus! {

/// Longest realm name, in UTF-8 bytes.
pub const MAX_NAME_LEN: usize = 50;

/// The rule that decides from the tallies whether a proposal passes.
#[derive(Clone, Copy, Debug, PartialEq, Eq, Structural)]
pub enum VoteThreshold {
    /// Pass when the yes share of the votes cast reaches the percentage.
    YesVotePercentage(u8),
    /// Pass when the votes cast reach the percentage of the total supply and yes beats no.
    QuorumPercentage(u8),
}

impl VoteThreshold {
    pub open spec fn percentage(self) -> u8 {
        match self {
            VoteThreshold::YesVotePercentage(p) => p,
            VoteThreshold::QuorumPercentage(p) => p,
        }
    }
}

/// Per-realm settings read by proposal creation, voting and finalization.
#[derive(Clone, Copy, Debug, PartialEq, Eq, Structural)]
pub struct RealmConfig {
    pub min_community_weight_to_create_proposal: u64,
    pub voting_base_time: u32,
    pub community_vote_threshold: VoteThreshold,
}

/// A configuration is accepted when its window is between an hour and a week
/// and its percentage is between one and a hundred.
pub open spec fn config_valid(c: RealmConfig) -> bool {
    &&& MIN_VOTING_TIME <= c.voting_base_time <= MAX_VOTING_TIME
    &&& MIN_YES_VOTE_THRESHOLD <= c.community_vote_threshold.percentage() <= MAX_YES_VOTE_THRESHOLD
}

/// Number of bytes in the UTF-8 encoding of `s`, as `str::len` reports it.
pub open spec fn byte_len(s: Seq<char>) -> usize {
    vstd::utf8::encode_utf8(s).len() as usize
}

/// Checks a configuration against the accepted ranges.
pub fn validate_config(config: &RealmConfig) -> (r: bool)
    ensures
        r == config_valid(*config),
{
    let window_ok = config.voting_base_time >= MIN_VOTING_TIME
        && config.voting_base_time <= MAX_VOTING_TIME;
    let percentage = match config.community_vote_threshold {
        VoteThreshold::YesVotePercentage(p) => p,
        VoteThreshold::QuorumPercentage(p) => p,
    };
    window_ok && percentage >= MIN_YES_VOTE_THRESHOLD && percentage <= MAX_YES_VOTE_THRESHOLD
}

/// A governance namespace: a token, its settings and a proposal counter.
#[derive(Clone, Debug)]
pub struct GovernanceRealm {
    pub authority: Pubkey,
    pub governance_token_mint: Pubkey,
    pub name: String,
    pub voting_proposal_count: u32,
    pub config: RealmConfig,
    pub bump: u8,
}

impl GovernanceRealm {
    /// A stored realm has a valid configuration and a name within its bound.
    pub open spec fn wf(&self) -> bool {
        &&& config_valid(self.config)
        &&& byte_len(self.name@) <= MAX_NAME_LEN
    }

    /// Whether a holder of `token_amount` may create a proposal here.
    pub fn can_create_proposal(&self, token_amount: u64) -> (r: bool)
        ensures
            r == (token_amount >= self.config.min_community_weight_to_create_proposal),
    {
        token_amount >= self.config.min_community_weight_to_create_proposal
    }
}

} // verus!

use vstd::prelude::*;
use crate::realm::VoteThreshold;

verus! {

/// Whether tallies of `yes` and `no` pass `threshold` against a token supply of `supply`.
pub open spec fn vote_passes(yes: int, no: int, supply: int, threshold: VoteThreshold) -> bool {
    match threshold {
        VoteThreshold::YesVotePercentage(p) => {
            yes + no != 0 && (yes * 100) / (yes + no) >= p
        },
        VoteThreshold::QuorumPercentage(p) => {
            yes + no >= (supply * p) / 100 && yes > no
        },
    }
}

/// Decides whether the tallies pass the threshold policy. Every intermediate
/// is held in 128 bits, so no input can overflow.
pub fn evaluate(vote_yes: u64, vote_no: u64, total_supply: u64, threshold: &VoteThreshold) -> (r: bool)
    ensures
        r == vote_passes(vote_yes as int, vote_no as int, total_supply as int, *threshold),
{
    let total_votes: u128 = vote_yes as u128 + vote_no as u128;
    match threshold {
        VoteThreshold::YesVotePercentage(percentage) => {
            if total_votes == 0 {
                return false;
            }
            assert(vote_yes as u128 * 100 <= 0xffff_ffff_ffff_ffff * 100) by (nonlinear_arith);
            let yes_percentage: u128 = (vote_yes as u128 * 100) / total_votes;
            yes_percentage >= *percentage as u128
        },
        VoteThreshold::QuorumPercentage(percentage) => {
            assert(total_supply as u128 * (*percentage as u128) <= 0xffff_ffff_ffff_ffff * 255)
                by (nonlinear_arith);
            let required_quorum: u128 = (total_supply as u128 * *percentage as u128) / 100;
            total_votes >= required_quorum && vote_yes > vote_no
        },
    }
}

/// With no votes cast, a yes-percentage policy never passes, whatever the
/// percentage and the supply.
pub proof fn no_votes_fail_yes_percentage(percentage: u8, supply: u64)
    ensures
        !vote_passes(0, 0, supply as int, VoteThreshold::YesVotePercentage(percentage)),
{
}

} // verus!

use vstd::prelude::*;

verus! {

/// Every way a governance operation can be refused.
#[derive(Clone, Copy, Debug, PartialEq, Eq, Structural)]
pub enum GovernanceError {
    /// The proposer's token weight is below the realm's minimum.
    InsufficientTokensToCreateProposal,
    /// The proposal is not open for votes, or is not in the voting state.
    ProposalNotInVotingState,
    /// The voting window has already closed.
    VotingPeriodEnded,
    /// The voting window is still open.
    VotingPeriodNotEnded,
    /// The proposal has not succeeded, so it cannot be executed.
    ProposalNotSucceeded,
    /// A vote record already exists for this proposal and voter.
    AlreadyVoted,
    /// The realm configuration is out of range.
    InvalidVoteThreshold,
    /// An action could not be resolved or its invocation failed.
    ProposalExecutionFailed,
    /// The caller is not allowed to perform this operation.
    Unauthorized,
    /// The proposal is not in the state this transition starts from.
    InvalidProposalStateTransition,
    /// A counter or a tally would exceed its integer range.
    ArithmeticOverflow,
    /// The proposal does not belong to the given realm.
    RealmMismatch,
    /// A name, title, description or action list exceeds its stored bound.
    DataTooLarge,
}

} // verus!

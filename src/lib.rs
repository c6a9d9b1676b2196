pub mod cast_vote;
pub mod constants;
pub mod create_proposal;
pub mod create_realm;
pub mod error;
pub mod execute_proposal;
pub mod finalize_vote;
pub mod proposal;
pub mod pubkey;
pub mod realm;
pub mod start_voting;
pub mod threshold;
pub mod vote_record;

use vstd::prelude::*;

verus! {

/// Shortest voting window a realm may configure, in seconds (one hour).
pub const MIN_VOTING_TIME: u32 = 3600;

/// Longest voting window a realm may configure, in seconds (one week).
pub const MAX_VOTING_TIME: u32 = 604800;

/// Smallest percentage a threshold policy may carry.
pub const MIN_YES_VOTE_THRESHOLD: u8 = 1;

/// Largest percentage a threshold policy may carry.
pub const MAX_YES_VOTE_THRESHOLD: u8 = 100;

} // verus!

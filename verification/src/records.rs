//! The three record kinds the ledger stores for a poll, and the domain
//! errors a vote attempt can be answered with.

use vstd::prelude::*;

verus! {

/// A single vote-able question with a bounded time window. The ledger stores
/// one `Poll` per poll id, under a key derived from that id.
#[derive(Clone, Debug)]
pub struct Poll {
    /// The question put to the voters (at most 280 characters; length policy
    /// is owned by the storage layer, not checked here).
    pub pool_question: String,
    /// When the poll officially opens. Stored, but no guard reads it: votes
    /// before the start date are accepted.
    pub pool_start_date: u64,
    /// The last ledger time at which a vote is still accepted.
    pub pool_end_date: u64,
    /// How many candidate registrations have been applied to this poll.
    pub candidate_count: u64,
    /// Declared early-closing flag; no transition ever sets it.
    pub is_closed: bool,
}

/// One selectable option within a poll, carrying its accumulated tally. The
/// ledger stores one `Candidate` per (poll id, candidate name) pair.
#[derive(Clone, Debug)]
pub struct Candidate {
    /// The candidate's name (at most 100 characters; length policy is owned
    /// by the storage layer, not checked here).
    pub candidate_name: String,
    /// How many votes have been cast for this candidate.
    pub candidate_votes: u64,
}

/// The per-voter-per-poll marker that prevents duplicate voting. The ledger
/// creates one lazily, zeroed, on a voter's first vote attempt; a failed
/// attempt is rolled back whole, creation included.
#[derive(Clone, Copy, PartialEq, Eq, Structural, Debug)]
pub struct VoterRecord {
    /// Set once, by the voter's accepted vote; never cleared afterwards.
    pub has_voted: bool,
    /// The ledger time of the accepted vote, as the clock's signed value.
    pub timestamp: i64,
}

/// The domain errors. Every guard failure is one of these, and a failing
/// invocation leaves all referenced state unchanged. Host-level failures
/// (allocation, identity verification) are not modelled here; the runtime
/// propagates them as opaque fatal errors before this logic runs.
#[derive(Clone, Copy, PartialEq, Eq, Structural, Debug)]
pub enum VotingError {
    /// The voter has already cast a vote in this poll. Terminal: no retry
    /// will succeed.
    AlreadyVoted,
    /// The poll is closed and no more votes can be cast. Terminal: the end
    /// date has passed.
    PollClosed,
}

} // verus!

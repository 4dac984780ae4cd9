//! The three state-transition operations. Each is one atomic transition: the
//! host loads the named records, calls the operation, and persists the
//! records only on success, so a returned error means nothing changed.

use vstd::prelude::*;

use crate::records::{Candidate, Poll, VoterRecord, VotingError};

verus! {

/// What a vote attempt is answered, given the voter's current marker, the
/// poll's end date and the ledger time of the call. The guards are checked
/// in this order: a voter who has already voted is answered `AlreadyVoted`
/// even when the poll has also closed.
pub open spec fn vote_outcome(
    already_voted: bool,
    end_date: u64,
    now: u64,
) -> Result<(), VotingError> {
    if already_voted {
        Err(VotingError::AlreadyVoted)
    } else if now > end_date {
        Err(VotingError::PollClosed)
    } else {
        Ok(())
    }
}

/// Whether a vote attempt passes both guards and is counted.
pub open spec fn vote_accepted(already_voted: bool, end_date: u64, now: u64) -> bool {
    vote_outcome(already_voted, end_date, now) is Ok
}

/// Create (or re-create) the poll record for a poll id. The host allocates
/// the slot with create-or-fetch semantics, so a second call with the same
/// poll id reaches an existing record and silently re-initializes it; the
/// contract states that overwrite in full.
pub fn initialize_pool(pool: &mut Poll, poll_start: u64, poll_end: u64, poll_question: String)
    ensures
        final(pool).pool_question@ == poll_question@,
        final(pool).pool_start_date == poll_start,
        final(pool).pool_end_date == poll_end,
        final(pool).candidate_count == 0,
        !final(pool).is_closed,
{
    pool.pool_question = poll_question;
    pool.pool_start_date = poll_start;
    pool.pool_end_date = poll_end;
    pool.candidate_count = 0;
    pool.is_closed = false;
}

/// Attach a candidate to an existing poll and count the registration. The
/// host allocates the candidate slot with create-or-fetch semantics, so a
/// repeated call with the same (poll id, candidate name) pair re-initializes
/// the existing record and still increments `candidate_count`; the contract
/// states that drift rather than hiding it. The bound on `candidate_count`
/// is the machine limit of the counter.
pub fn initialize_candidate(candidate: &mut Candidate, pool: &mut Poll, candidate_name: String)
    requires
        old(pool).candidate_count < u64::MAX,
    ensures
        final(candidate).candidate_name@ == candidate_name@,
        final(candidate).candidate_votes == 0,
        final(pool).candidate_count == old(pool).candidate_count + 1,
        final(pool).pool_question@ == old(pool).pool_question@,
        final(pool).pool_start_date == old(pool).pool_start_date,
        final(pool).pool_end_date == old(pool).pool_end_date,
        final(pool).is_closed == old(pool).is_closed,
{
    candidate.candidate_name = candidate_name;
    candidate.candidate_votes = 0;
    pool.candidate_count = pool.candidate_count + 1;
}

/// Record a vote by one caller identity for one candidate of a poll.
///
/// `current_time` is the ledger clock, read once by the host for the whole
/// invocation; it serves both the closing guard and the stored timestamp.
/// Guards run before any mutation, in the order `vote_outcome` states: on an
/// error nothing is written. On acceptance the voter's marker becomes
/// terminal, the clock value is recorded, and exactly this candidate's tally
/// grows by one. The bound on `candidate_votes` is the machine limit of the
/// tally and is needed only when the vote would be counted.
pub fn vote(
    poll: &Poll,
    candidate: &mut Candidate,
    voter_record: &mut VoterRecord,
    current_time: u64,
) -> (r: Result<(), VotingError>)
    requires
        vote_accepted(old(voter_record).has_voted, poll.pool_end_date, current_time)
            ==> old(candidate).candidate_votes < u64::MAX,
    ensures
        r == vote_outcome(old(voter_record).has_voted, poll.pool_end_date, current_time),
        r is Ok ==> final(voter_record).has_voted,
        r is Ok ==> final(voter_record).timestamp == current_time as i64,
        r is Ok ==> final(candidate).candidate_votes == old(candidate).candidate_votes + 1,
        r is Err ==> *final(voter_record) == *old(voter_record),
        r is Err ==> final(candidate).candidate_votes == old(candidate).candidate_votes,
        final(candidate).candidate_name@ == old(candidate).candidate_name@,
{
    if voter_record.has_voted {
        return Err(VotingError::AlreadyVoted);
    }
    if current_time > poll.pool_end_date {
        return Err(VotingError::PollClosed);
    }
    voter_record.has_voted = true;
    voter_record.timestamp = #[verifier::truncate] (current_time as i64);
    candidate.candidate_votes = candidate.candidate_votes + 1;
    Ok(())
}

} // verus!

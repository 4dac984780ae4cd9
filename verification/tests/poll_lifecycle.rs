//! The poll lifecycle exercised end to end: initialization, candidate
//! registration, and vote processing with both guards.

use voting::ops::{initialize_candidate, initialize_pool, vote};
use voting::records::{Candidate, Poll, VoterRecord, VotingError};

fn blank_poll() -> Poll {
    Poll {
        pool_question: String::new(),
        pool_start_date: 0,
        pool_end_date: 0,
        candidate_count: 0,
        is_closed: false,
    }
}

fn blank_candidate() -> Candidate {
    Candidate { candidate_name: String::new(), candidate_votes: 0 }
}

fn fresh_record() -> VoterRecord {
    VoterRecord { has_voted: false, timestamp: 0 }
}

#[test]
fn initialize_pool_sets_fields() {
    let mut poll = blank_poll();
    initialize_pool(&mut poll, 10, 1000, String::from("Best fruit?"));
    assert_eq!(poll.pool_question, "Best fruit?");
    assert_eq!(poll.pool_start_date, 10);
    assert_eq!(poll.pool_end_date, 1000);
    assert_eq!(poll.candidate_count, 0);
    assert!(!poll.is_closed);
}

#[test]
fn initialize_pool_overwrites_existing() {
    let mut poll = blank_poll();
    initialize_pool(&mut poll, 10, 1000, String::from("Best fruit?"));
    let mut candidate = blank_candidate();
    initialize_candidate(&mut candidate, &mut poll, String::from("Apple"));
    assert_eq!(poll.candidate_count, 1);
    // a second initialization through the same key silently resets the poll
    initialize_pool(&mut poll, 20, 2000, String::from("Best color?"));
    assert_eq!(poll.pool_question, "Best color?");
    assert_eq!(poll.pool_start_date, 20);
    assert_eq!(poll.pool_end_date, 2000);
    assert_eq!(poll.candidate_count, 0);
}

#[test]
fn initialize_candidate_registers_and_counts() {
    let mut poll = blank_poll();
    initialize_pool(&mut poll, 0, 1000, String::from("Best fruit?"));
    let mut apple = blank_candidate();
    let mut banana = blank_candidate();
    initialize_candidate(&mut apple, &mut poll, String::from("Apple"));
    initialize_candidate(&mut banana, &mut poll, String::from("Banana"));
    assert_eq!(apple.candidate_name, "Apple");
    assert_eq!(apple.candidate_votes, 0);
    assert_eq!(banana.candidate_name, "Banana");
    assert_eq!(banana.candidate_votes, 0);
    assert_eq!(poll.candidate_count, 2);
}

#[test]
fn repeated_registration_still_increments_count() {
    let mut poll = blank_poll();
    initialize_pool(&mut poll, 0, 1000, String::from("Best fruit?"));
    let mut apple = blank_candidate();
    initialize_candidate(&mut apple, &mut poll, String::from("Apple"));
    // re-registering the same name re-uses the slot and still counts:
    // the counter drifts from the number of distinct candidates
    initialize_candidate(&mut apple, &mut poll, String::from("Apple"));
    assert_eq!(poll.candidate_count, 2);
    assert_eq!(apple.candidate_votes, 0);
}

#[test]
fn scenario_best_fruit() {
    let mut poll = blank_poll();
    initialize_pool(&mut poll, 0, 1000, String::from("Best fruit?"));
    let mut apple = blank_candidate();
    let mut banana = blank_candidate();
    initialize_candidate(&mut apple, &mut poll, String::from("Apple"));
    initialize_candidate(&mut banana, &mut poll, String::from("Banana"));
    assert_eq!(poll.candidate_count, 2);

    // voter V1 votes Apple at time 500: accepted
    let mut v1 = fresh_record();
    assert_eq!(vote(&poll, &mut apple, &mut v1, 500), Ok(()));
    assert_eq!(apple.candidate_votes, 1);

    // V1 votes Banana at time 600: rejected, Banana stays at zero
    assert_eq!(vote(&poll, &mut banana, &mut v1, 600), Err(VotingError::AlreadyVoted));
    assert_eq!(banana.candidate_votes, 0);

    // voter V2 votes Apple at time 1500: the poll has closed
    let mut v2 = fresh_record();
    assert_eq!(vote(&poll, &mut apple, &mut v2, 1500), Err(VotingError::PollClosed));
    assert_eq!(apple.candidate_votes, 1);
}

#[test]
fn second_vote_is_rejected() {
    let mut poll = blank_poll();
    initialize_pool(&mut poll, 0, 1000, String::from("Best fruit?"));
    let mut apple = blank_candidate();
    initialize_candidate(&mut apple, &mut poll, String::from("Apple"));
    let mut record = fresh_record();
    assert_eq!(vote(&poll, &mut apple, &mut record, 100), Ok(()));
    assert!(record.has_voted);
    // the same voter again, for the same candidate, still in time
    assert_eq!(vote(&poll, &mut apple, &mut record, 200), Err(VotingError::AlreadyVoted));
    assert_eq!(apple.candidate_votes, 1);
    assert_eq!(record.timestamp, 100);
}

#[test]
fn vote_after_end_is_poll_closed() {
    let mut poll = blank_poll();
    initialize_pool(&mut poll, 0, 1000, String::from("Best fruit?"));
    let mut apple = blank_candidate();
    initialize_candidate(&mut apple, &mut poll, String::from("Apple"));
    let mut record = fresh_record();
    assert_eq!(vote(&poll, &mut apple, &mut record, 1001), Err(VotingError::PollClosed));
    assert_eq!(apple.candidate_votes, 0);
    assert!(!record.has_voted);
    assert_eq!(record.timestamp, 0);
}

#[test]
fn already_voted_precedes_poll_closed() {
    let mut poll = blank_poll();
    initialize_pool(&mut poll, 0, 1000, String::from("Best fruit?"));
    let mut apple = blank_candidate();
    initialize_candidate(&mut apple, &mut poll, String::from("Apple"));
    let mut record = fresh_record();
    assert_eq!(vote(&poll, &mut apple, &mut record, 900), Ok(()));
    // after the poll closes, the voted guard still answers first
    assert_eq!(vote(&poll, &mut apple, &mut record, 2000), Err(VotingError::AlreadyVoted));
    assert_eq!(apple.candidate_votes, 1);
}

#[test]
fn vote_for_one_candidate_leaves_the_other() {
    let mut poll = blank_poll();
    initialize_pool(&mut poll, 0, 1000, String::from("Best fruit?"));
    let mut apple = blank_candidate();
    let mut banana = blank_candidate();
    initialize_candidate(&mut apple, &mut poll, String::from("Apple"));
    initialize_candidate(&mut banana, &mut poll, String::from("Banana"));
    let mut v1 = fresh_record();
    assert_eq!(vote(&poll, &mut apple, &mut v1, 500), Ok(()));
    assert_eq!(apple.candidate_votes, 1);
    assert_eq!(banana.candidate_votes, 0);
    let mut v2 = fresh_record();
    assert_eq!(vote(&poll, &mut banana, &mut v2, 500), Ok(()));
    assert_eq!(apple.candidate_votes, 1);
    assert_eq!(banana.candidate_votes, 1);
}

#[test]
fn tallies_match_votes_cast() {
    let mut poll = blank_poll();
    initialize_pool(&mut poll, 0, 1000, String::from("Best fruit?"));
    let mut apple = blank_candidate();
    let mut banana = blank_candidate();
    initialize_candidate(&mut apple, &mut poll, String::from("Apple"));
    initialize_candidate(&mut banana, &mut poll, String::from("Banana"));
    let mut v1 = fresh_record();
    let mut v2 = fresh_record();
    let mut v3 = fresh_record();
    assert_eq!(vote(&poll, &mut apple, &mut v1, 100), Ok(()));
    assert_eq!(vote(&poll, &mut banana, &mut v2, 200), Ok(()));
    assert_eq!(vote(&poll, &mut apple, &mut v3, 300), Ok(()));
    // each tally equals the number of marked voters that chose it
    assert_eq!(apple.candidate_votes, 2);
    assert_eq!(banana.candidate_votes, 1);
    assert!(v1.has_voted && v2.has_voted && v3.has_voted);
}

#[test]
fn vote_at_end_date_is_accepted() {
    let mut poll = blank_poll();
    initialize_pool(&mut poll, 0, 1000, String::from("Best fruit?"));
    let mut apple = blank_candidate();
    initialize_candidate(&mut apple, &mut poll, String::from("Apple"));
    let mut record = fresh_record();
    // the closing guard is strict: the end date itself is still open
    assert_eq!(vote(&poll, &mut apple, &mut record, 1000), Ok(()));
    assert_eq!(apple.candidate_votes, 1);
}

#[test]
fn vote_before_start_date_is_accepted() {
    let mut poll = blank_poll();
    initialize_pool(&mut poll, 500, 1000, String::from("Best fruit?"));
    let mut apple = blank_candidate();
    initialize_candidate(&mut apple, &mut poll, String::from("Apple"));
    let mut record = fresh_record();
    // no guard reads the start date: an early vote is accepted
    assert_eq!(vote(&poll, &mut apple, &mut record, 100), Ok(()));
    assert_eq!(apple.candidate_votes, 1);
}

#[test]
fn vote_records_the_clock_value() {
    let mut poll = blank_poll();
    initialize_pool(&mut poll, 0, 1000, String::from("Best fruit?"));
    let mut apple = blank_candidate();
    initialize_candidate(&mut apple, &mut poll, String::from("Apple"));
    let mut record = fresh_record();
    assert_eq!(vote(&poll, &mut apple, &mut record, 777), Ok(()));
    assert!(record.has_voted);
    assert_eq!(record.timestamp, 777);
}

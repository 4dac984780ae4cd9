//! A mathematical model of the ledger's keyed state for one poll, and of the
//! vote processor acting on it.
//!
//! The host serializes vote invocations, so a poll's history is a sequence
//! of vote events applied one at a time. `step` is the whole effect of one
//! invocation on that state: it answers the event with the very guards of
//! `crate::ops::vote_outcome` and, exactly on acceptance, marks the voter
//! and counts the vote — clause for clause what `crate::ops::vote` ensures
//! of the records it is handed. The laws in `crate::laws` are proved of
//! `run`, the fold of `step` over a history.

use vstd::prelude::*;

use crate::ops::vote_outcome;
use crate::records::VotingError;

verus! {

/// One vote invocation as the host presents it: the caller's identity, the
/// chosen candidate's name, and the ledger time read for the call.
pub ghost struct VoteEvent {
    pub voter: Seq<char>,
    pub candidate: Seq<char>,
    pub time: u64,
}

/// The ledger's state for one poll, abstracted to what the vote processor
/// reads and writes: the poll's end date, each registered candidate's tally
/// keyed by name, and the set of voter identities whose record has
/// `has_voted` set.
pub ghost struct PollLedger {
    pub end_date: u64,
    pub tallies: Map<Seq<char>, nat>,
    pub voted: Set<Seq<char>>,
}

/// Whether the event names a candidate registered under this poll. An event
/// that does not is answered by the host itself — the candidate record fails
/// to load — and never reaches the vote processor.
pub open spec fn registered(s: PollLedger, e: VoteEvent) -> bool {
    s.tallies.dom().contains(e.candidate)
}

/// What the event is answered: the vote processor's guards, in the same
/// order, on the state's view of the voter and the poll.
pub open spec fn outcome(s: PollLedger, e: VoteEvent) -> Result<(), VotingError> {
    vote_outcome(s.voted.contains(e.voter), s.end_date, e.time)
}

/// The state after one vote invocation. A rejected event changes nothing;
/// an accepted one marks its voter as having voted and adds one vote to its
/// candidate's tally, and touches nothing else.
pub open spec fn step(s: PollLedger, e: VoteEvent) -> PollLedger {
    if outcome(s, e) is Ok && registered(s, e) {
        PollLedger {
            end_date: s.end_date,
            tallies: s.tallies.insert(e.candidate, s.tallies[e.candidate] + 1),
            voted: s.voted.insert(e.voter),
        }
    } else {
        s
    }
}

/// The state after a history of vote invocations, applied in order.
pub open spec fn run(s: PollLedger, events: Seq<VoteEvent>) -> PollLedger
    decreases events.len(),
{
    if events.len() == 0 {
        s
    } else {
        step(run(s, events.drop_last()), events.last())
    }
}

/// What the i-th event of a history is answered, in the state the earlier
/// events left behind.
pub open spec fn outcome_at(
    s: PollLedger,
    events: Seq<VoteEvent>,
    i: int,
) -> Result<(), VotingError> {
    outcome(run(s, events.take(i)), events[i])
}

/// The voters whose vote the history counted for candidate `c`: those of the
/// accepted events that chose `c`. This is the trace's record of who chose
/// whom; the stored records keep only the `has_voted` marker.
pub open spec fn accepted_voters(
    s: PollLedger,
    events: Seq<VoteEvent>,
    c: Seq<char>,
) -> Set<Seq<char>>
    decreases events.len(),
{
    if events.len() == 0 {
        Set::empty()
    } else {
        let before = accepted_voters(s, events.drop_last(), c);
        if outcome(run(s, events.drop_last()), events.last()) is Ok && events.last().candidate
            == c {
            before.insert(events.last().voter)
        } else {
            before
        }
    }
}

} // verus!

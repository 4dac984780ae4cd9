//! The voting invariants, proved of the model in `crate::model`: single vote
//! per voter, the temporal bound, tally consistency, candidate isolation,
//! and the precedence of the guards.

use vstd::prelude::*;

use crate::model::{accepted_voters, outcome, outcome_at, registered, run, step, PollLedger,
    VoteEvent};
use crate::records::VotingError;

verus! {

/// A history changes neither the poll's end date nor which candidates are
/// registered: vote invocations only move tallies and voter markers.
pub proof fn lemma_run_keeps_shape(s: PollLedger, events: Seq<VoteEvent>)
    ensures
        run(s, events).end_date == s.end_date,
        run(s, events).tallies.dom() == s.tallies.dom(),
    decreases events.len(),
{
    if events.len() > 0 {
        lemma_run_keeps_shape(s, events.drop_last());
        let before = run(s, events.drop_last());
        let e = events.last();
        if outcome(before, e) is Ok && registered(before, e) {
            assert(step(before, e).tallies.dom() =~= before.tallies.dom());
        }
    }
}

/// Once a voter's record shows a vote, it shows it after any further events:
/// the `Voted` state is terminal.
pub proof fn lemma_voted_monotone(s: PollLedger, events: Seq<VoteEvent>, v: Seq<char>)
    requires
        s.voted.contains(v),
    ensures
        run(s, events).voted.contains(v),
    decreases events.len(),
{
    if events.len() > 0 {
        lemma_voted_monotone(s, events.drop_last(), v);
    }
}

/// Running a concatenated history is running its parts in order.
pub proof fn lemma_run_concat(s: PollLedger, a: Seq<VoteEvent>, b: Seq<VoteEvent>)
    ensures
        run(s, a + b) == run(run(s, a), b),
    decreases b.len(),
{
    if b.len() == 0 {
        assert(a + b =~= a);
    } else {
        lemma_run_concat(s, a, b.drop_last());
        assert((a + b).drop_last() =~= a + b.drop_last());
        assert((a + b).last() == b.last());
    }
}

/// Single vote: in any history, once an event by some voter has been
/// accepted, every later event by the same voter — whatever candidate it
/// names, and whether or not the poll has meanwhile closed — is answered
/// `AlreadyVoted` and leaves the entire state unchanged. At most one event
/// per voter is ever counted.
pub proof fn lemma_single_vote(s: PollLedger, events: Seq<VoteEvent>, i: int, j: int)
    requires
        0 <= i < j < events.len(),
        events[i].voter == events[j].voter,
        registered(s, events[i]),
        outcome_at(s, events, i) is Ok,
    ensures
        outcome_at(s, events, j) == Err::<(), VotingError>(VotingError::AlreadyVoted),
        run(s, events.take(j + 1)) == run(s, events.take(j)),
{
    let v = events[i].voter;
    let pre_i = run(s, events.take(i));
    lemma_run_keeps_shape(s, events.take(i));
    assert(registered(pre_i, events[i]));
    // the accepted event marks its voter
    assert(events.take(i + 1).drop_last() =~= events.take(i));
    assert(events.take(i + 1).last() == events[i]);
    let post_i = run(s, events.take(i + 1));
    assert(post_i == step(pre_i, events[i]));
    assert(post_i.voted.contains(v));
    // the marker persists up to just before event j
    assert(events.take(j) =~= events.take(i + 1) + events.subrange(i + 1, j));
    lemma_run_concat(s, events.take(i + 1), events.subrange(i + 1, j));
    lemma_voted_monotone(post_i, events.subrange(i + 1, j), v);
    let pre_j = run(s, events.take(j));
    assert(pre_j.voted.contains(v));
    // so event j fails the first guard, before the closing guard is reached
    assert(events.take(j + 1).drop_last() =~= events.take(j));
    assert(events.take(j + 1).last() == events[j]);
    assert(run(s, events.take(j + 1)) == step(pre_j, events[j]));
}

/// The model moves record for record as the vote processor does: an event
/// is answered by the very guards of `crate::ops::vote_outcome` on the
/// state's view of its voter and poll, and `step` marks the voter and
/// counts the vote exactly as `crate::ops::vote` ensures of the records the
/// host hands it — and touches nothing on a rejection.
pub proof fn lemma_step_matches_vote(s: PollLedger, e: VoteEvent)
    requires
        registered(s, e),
    ensures
        outcome(s, e) == crate::ops::vote_outcome(s.voted.contains(e.voter), s.end_date, e.time),
        outcome(s, e) is Ok ==> step(s, e).voted == s.voted.insert(e.voter) && step(
            s,
            e,
        ).tallies[e.candidate] == s.tallies[e.candidate] + 1,
        outcome(s, e) is Err ==> step(s, e) == s,
{
}

/// Temporal bound: an event presented after the poll's end date never
/// mutates state; and unless its voter had already voted — in which case
/// `AlreadyVoted` takes precedence — it is answered `PollClosed`.
pub proof fn lemma_temporal_bound(s: PollLedger, e: VoteEvent)
    requires
        e.time > s.end_date,
    ensures
        step(s, e) == s,
        !s.voted.contains(e.voter) ==> outcome(s, e) == Err::<(), VotingError>(VotingError::PollClosed),
{
}

/// Guard precedence: an event by a voter who has already voted is answered
/// `AlreadyVoted` — even when the poll has also closed — and nothing
/// changes.
pub proof fn lemma_guard_precedence(s: PollLedger, e: VoteEvent)
    requires
        s.voted.contains(e.voter),
    ensures
        outcome(s, e) == Err::<(), VotingError>(VotingError::AlreadyVoted),
        step(s, e) == s,
{
}

/// Candidate isolation: one vote invocation never changes the tally of any
/// candidate other than the one it names.
pub proof fn lemma_candidate_isolation(s: PollLedger, e: VoteEvent, other: Seq<char>)
    requires
        other != e.candidate,
    ensures
        step(s, e).tallies.dom().contains(other) == s.tallies.dom().contains(other),
        s.tallies.dom().contains(other) ==> step(s, e).tallies[other] == s.tallies[other],
{
}

/// Candidate isolation over a history: a candidate's tally is untouched by
/// any sequence of events none of which names it.
pub proof fn lemma_candidate_isolation_run(s: PollLedger, events: Seq<VoteEvent>, other: Seq<
    char>)
    requires
        forall|k: int| 0 <= k < events.len() ==> (#[trigger] events[k]).candidate != other,
    ensures
        run(s, events).tallies.dom().contains(other) == s.tallies.dom().contains(other),
        s.tallies.dom().contains(other) ==> run(s, events).tallies[other] == s.tallies[other],
    decreases events.len(),
{
    if events.len() > 0 {
        let prefix = events.drop_last();
        assert forall|k: int| 0 <= k < prefix.len() implies (#[trigger] prefix[k]).candidate
            != other by {
            assert(prefix[k] == events[k]);
        }
        lemma_candidate_isolation_run(s, prefix, other);
        lemma_candidate_isolation(run(s, prefix), events.last(), other);
    }
}

/// Tally consistency: after any history, a registered candidate's tally has
/// grown by exactly the number of voters whose vote was accepted for that
/// candidate, and each of them is marked as having voted afterwards. From a
/// fresh poll — tally zero, nobody yet voted — the tally therefore equals
/// the count of voters marked `has_voted` that chose this candidate.
pub proof fn lemma_tally_consistency(s: PollLedger, events: Seq<VoteEvent>, c: Seq<char>)
    requires
        s.tallies.dom().contains(c),
    ensures
        accepted_voters(s, events, c).finite(),
        accepted_voters(s, events, c).subset_of(run(s, events).voted),
        run(s, events).tallies[c] == s.tallies[c] + accepted_voters(s, events, c).len(),
    decreases events.len(),
{
    if events.len() > 0 {
        let prefix = events.drop_last();
        let e = events.last();
        let before = run(s, prefix);
        lemma_tally_consistency(s, prefix, c);
        lemma_run_keeps_shape(s, prefix);
        let acc0 = accepted_voters(s, prefix, c);
        let acc1 = accepted_voters(s, events, c);
        if outcome(before, e) is Ok && e.candidate == c {
            // an accepted voter carries no marker yet, so was never counted
            assert(!before.voted.contains(e.voter));
            assert(!acc0.contains(e.voter));
            assert(acc1 == acc0.insert(e.voter));
            assert forall|x: Seq<char>| acc1.contains(x) implies run(s, events).voted.contains(
                x) by {
                if x != e.voter {
                    assert(acc0.contains(x));
                    assert(before.voted.contains(x));
                }
            }
        } else {
            assert(acc1 == acc0);
            assert forall|x: Seq<char>| acc1.contains(x) implies run(s, events).voted.contains(
                x) by {
                assert(before.voted.contains(x));
            }
        }
    }
}

/// One choice per voter: no voter is counted for two candidates — the sets
/// of voters whose vote was accepted for two distinct candidates are
/// disjoint.
pub proof fn lemma_one_choice_per_voter(
    s: PollLedger,
    events: Seq<VoteEvent>,
    c1: Seq<char>,
    c2: Seq<char>,
)
    requires
        c1 != c2,
        s.tallies.dom().contains(c1),
        s.tallies.dom().contains(c2),
    ensures
        accepted_voters(s, events, c1).disjoint(accepted_voters(s, events, c2)),
    decreases events.len(),
{
    if events.len() > 0 {
        let prefix = events.drop_last();
        let e = events.last();
        let before = run(s, prefix);
        lemma_one_choice_per_voter(s, prefix, c1, c2);
        lemma_tally_consistency(s, prefix, c1);
        lemma_tally_consistency(s, prefix, c2);
        let a1 = accepted_voters(s, events, c1);
        let a2 = accepted_voters(s, events, c2);
        if outcome(before, e) is Ok {
            // an accepted voter was counted for no candidate before
            assert(!before.voted.contains(e.voter));
            assert(!accepted_voters(s, prefix, c1).contains(e.voter));
            assert(!accepted_voters(s, prefix, c2).contains(e.voter));
        }
        assert forall|x: Seq<char>| a1.contains(x) implies !a2.contains(x) by {
            if x != e.voter {
                assert(accepted_voters(s, prefix, c1).contains(x) == a1.contains(x));
                assert(accepted_voters(s, prefix, c2).contains(x) == a2.contains(x));
            }
        }
    }
}

} // verus!

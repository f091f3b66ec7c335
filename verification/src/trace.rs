//! Whole runs of the polling loop: what a sequence of events leads to, and
//! what holds of every such run.

use crate::history::{chronological, lemma_append_keeps_chronological, none_after};
use crate::poller::{PollEvent, PollerState};
use crate::reading::HistoryEntry;
use crate::sensor::FetchError;
use crate::stop::WaitOutcome;
use vstd::prelude::*;

verus! {

/// The state reached from `state` after `events`, taken in order.
pub open spec fn run(state: PollerState, events: Seq<PollEvent>) -> PollerState
    decreases events.len(),
{
    if events.len() == 0 {
        state
    } else {
        run(state, events.drop_last()).next(events.last())
    }
}

/// The entries that `events`, taken in order from `state`, add to the
/// history.
pub open spec fn collected(state: PollerState, events: Seq<PollEvent>) -> Seq<HistoryEntry>
    decreases events.len(),
{
    if events.len() == 0 {
        Seq::empty()
    } else {
        let before = collected(state, events.drop_last());
        match run(state, events.drop_last()).yields(events.last()) {
            Some(entry) => before.push(entry),
            None => before,
        }
    }
}

/// The events of as many full cycles as there are fetch outcomes, none of
/// them interrupted by the stop signal: each outcome is followed by a wait
/// that times out.
pub open spec fn cycles(outcomes: Seq<Result<HistoryEntry, FetchError>>) -> Seq<PollEvent>
    decreases outcomes.len(),
{
    if outcomes.len() == 0 {
        Seq::empty()
    } else {
        cycles(outcomes.drop_last()).push(PollEvent::Fetched(outcomes.last())).push(
            PollEvent::Waited(WaitOutcome::TimedOut),
        )
    }
}

/// The entries of the successful outcomes, in order.
pub open spec fn successes(outcomes: Seq<Result<HistoryEntry, FetchError>>) -> Seq<HistoryEntry>
    decreases outcomes.len(),
{
    if outcomes.len() == 0 {
        Seq::empty()
    } else {
        match outcomes.last() {
            Ok(entry) => successes(outcomes.drop_last()).push(entry),
            Err(_) => successes(outcomes.drop_last()),
        }
    }
}

/// How many of the outcomes are successes.
pub open spec fn success_count(outcomes: Seq<Result<HistoryEntry, FetchError>>) -> nat
    decreases outcomes.len(),
{
    if outcomes.len() == 0 {
        0
    } else if outcomes.last() is Ok {
        success_count(outcomes.drop_last()) + 1
    } else {
        success_count(outcomes.drop_last())
    }
}

/// The entries that the successful fetches among `events` carry, in order,
/// whether or not the machine was ready to take them.
pub open spec fn offered(events: Seq<PollEvent>) -> Seq<HistoryEntry>
    decreases events.len(),
{
    if events.len() == 0 {
        Seq::empty()
    } else {
        match events.last() {
            PollEvent::Fetched(Ok(entry)) => offered(events.drop_last()).push(entry),
            _ => offered(events.drop_last()),
        }
    }
}

/// Every wait among `events` ends in a stop, as it does once the stop
/// signal has fired.
pub open spec fn every_wait_stops(events: Seq<PollEvent>) -> bool {
    forall|i: int|
        0 <= i < events.len() ==> (#[trigger] events[i] matches PollEvent::Waited(outcome) ==> outcome.stops())
}

/// A run can be cut anywhere: the second part continues from the state
/// that the first part reached, and the entries of both parts add up.
pub proof fn lemma_run_splits(state: PollerState, first: Seq<PollEvent>, second: Seq<PollEvent>)
    ensures
        run(state, first + second) == run(run(state, first), second),
        collected(state, first + second) == collected(state, first) + collected(
            run(state, first),
            second,
        ),
    decreases second.len(),
{
    if second.len() == 0 {
    } else {
        lemma_run_splits(state, first, second.drop_last());
        assert((first + second).drop_last() == first + second.drop_last());
    }
}

/// Whatever the fetches come to, the history ends up with exactly the
/// entries of the successful ones, in order, so its length is their number.
/// A failure adds nothing and does not end the loop: after all the cycles
/// the poller is about to fetch again.
pub proof fn lemma_history_holds_the_successes(outcomes: Seq<Result<HistoryEntry, FetchError>>)
    ensures
        run(PollerState::Fetching, cycles(outcomes)) == PollerState::Fetching,
        collected(PollerState::Fetching, cycles(outcomes)) == successes(outcomes),
        collected(PollerState::Fetching, cycles(outcomes)).len() == success_count(outcomes),
    decreases outcomes.len(),
{
    if outcomes.len() > 0 {
        let earlier = cycles(outcomes.drop_last());
        let fetched = earlier.push(PollEvent::Fetched(outcomes.last()));
        lemma_history_holds_the_successes(outcomes.drop_last());
        assert(fetched.drop_last() == earlier);
        assert(collected(PollerState::Fetching, fetched) == successes(outcomes));
        assert(cycles(outcomes).drop_last() == fetched);
    }
}

/// Each collected entry is one that some successful fetch offered.
pub proof fn lemma_collected_were_offered(state: PollerState, events: Seq<PollEvent>)
    ensures
        forall|i: int|
            0 <= i < collected(state, events).len() ==> offered(events).contains(
                #[trigger] collected(state, events)[i],
            ),
    decreases events.len(),
{
    if events.len() > 0 {
        let earlier = events.drop_last();
        lemma_collected_were_offered(state, earlier);
        assert forall|i: int| 0 <= i < collected(state, events).len() implies offered(events).contains(
            #[trigger] collected(state, events)[i],
        ) by {
            if i < collected(state, earlier).len() {
                let entry = collected(state, earlier)[i];
                let j = choose|j: int| 0 <= j < offered(earlier).len() && offered(earlier)[j] == entry;
                assert(offered(events)[j] == entry);
            } else {
                assert(offered(events).last() == collected(state, events)[i]);
            }
        }
    }
}

/// If the clock never steps backwards, the history stays chronological:
/// whenever the entries already present, followed by the entries that the
/// successful fetches carry, have non-decreasing timestamps, so does the
/// history after the run.
pub proof fn lemma_history_stays_chronological(
    history: Seq<HistoryEntry>,
    state: PollerState,
    events: Seq<PollEvent>,
)
    requires
        chronological(history + offered(events)),
    ensures
        chronological(history + collected(state, events)),
    decreases events.len(),
{
    if events.len() > 0 {
        let earlier = events.drop_last();
        let on_offer = history + offered(events);
        assert(chronological(history + offered(earlier))) by {
            assert((history + offered(earlier)).is_prefix_of(on_offer));
        }
        lemma_history_stays_chronological(history, state, earlier);
        if let Some(entry) = run(state, earlier).yields(events.last()) {
            let before = history + collected(state, earlier);
            assert(on_offer.last() == entry);
            assert(none_after(before, entry.timestamp)) by {
                lemma_collected_were_offered(state, earlier);
                assert forall|i: int| 0 <= i < before.len() implies before[i].timestamp
                    <= entry.timestamp by {
                    if i < history.len() {
                        assert(before[i] == on_offer[i]);
                    } else {
                        let j = offered(earlier).index_of(before[i]);
                        assert(before[i] == on_offer[history.len() + j]);
                    }
                }
            }
            lemma_append_keeps_chronological(before, entry);
        }
    }
}

/// Once the loop has stopped it stays stopped and collects nothing more:
/// no cycle begins after the stop has been observed.
pub proof fn lemma_stopped_is_terminal(events: Seq<PollEvent>)
    ensures
        run(PollerState::Stopped, events) == PollerState::Stopped,
        collected(PollerState::Stopped, events) == Seq::<HistoryEntry>::empty(),
    decreases events.len(),
{
    if events.len() > 0 {
        lemma_stopped_is_terminal(events.drop_last());
    }
}

/// A wait that ends in a stop ends the loop within the cycle at hand: at
/// once if the loop was waiting, and after the fetch in flight has
/// delivered what it had if the loop was fetching.
pub proof fn lemma_stop_ends_the_cycle(fetch: Result<HistoryEntry, FetchError>, wait: WaitOutcome)
    requires
        wait.stops(),
    ensures
        run(PollerState::Waiting, seq![PollEvent::Waited(wait)]) == PollerState::Stopped,
        collected(PollerState::Waiting, seq![PollEvent::Waited(wait)]).len() == 0,
        run(PollerState::Fetching, seq![PollEvent::Fetched(fetch), PollEvent::Waited(wait)])
            == PollerState::Stopped,
        collected(PollerState::Fetching, seq![PollEvent::Fetched(fetch), PollEvent::Waited(wait)])
            == successes(seq![fetch]),
{
    let fetched = seq![PollEvent::Fetched(fetch)];
    let waited = seq![PollEvent::Waited(wait)];
    reveal_with_fuel(run, 2);
    reveal_with_fuel(collected, 2);
    reveal_with_fuel(successes, 2);
    assert(waited.drop_last() == Seq::<PollEvent>::empty());
    assert(fetched.drop_last() == Seq::<PollEvent>::empty());
    assert(seq![fetch].drop_last() == Seq::<Result<HistoryEntry, FetchError>>::empty());
    assert(fetched + waited == seq![PollEvent::Fetched(fetch), PollEvent::Waited(wait)]);
    lemma_run_splits(PollerState::Fetching, fetched, waited);
}

/// After the stop signal has fired, at most one more entry arrives: the one
/// of a fetch that was in flight. If the loop was already waiting, none
/// arrives, and in no case does the loop come back to fetching once it has
/// left it.
pub proof fn lemma_at_most_one_entry_after_signal(state: PollerState, events: Seq<PollEvent>)
    requires
        every_wait_stops(events),
    ensures
        collected(state, events).len() <= 1,
        state != PollerState::Fetching ==> collected(state, events).len() == 0,
        state != PollerState::Fetching ==> run(state, events) != PollerState::Fetching,
        run(state, events) == PollerState::Fetching ==> collected(state, events).len() == 0,
    decreases events.len(),
{
    if events.len() > 0 {
        let earlier = events.drop_last();
        assert(every_wait_stops(earlier));
        lemma_at_most_one_entry_after_signal(state, earlier);
    }
}

} // verus!

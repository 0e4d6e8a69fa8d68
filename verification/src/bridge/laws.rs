//! What the bridge guarantees over whole traces of events.
//!
//! Every statement here is about the model in [`super::model`]; the
//! executable [`super::call::BridgeCall::step`] is proved to follow that
//! model event by event, so the laws hold of every run of the real thing.

use super::model::{Action, Call, Completion, Event, Outcome, Slot};
use vstd::prelude::*;

verus! {

/// Running a concatenated trace is running its parts one after the other.
pub proof fn lemma_run_concat<T>(call: Call<T>, first: Seq<Event<T>>, second: Seq<Event<T>>)
    ensures
        call.run(first + second) == call.run(first).run(second),
    decreases first.len(),
{
    if first.len() == 0 {
        assert(first + second =~= second);
    } else {
        assert((first + second).drop_first() =~= first.drop_first() + second);
        lemma_run_concat(call.next(first[0]), first.drop_first(), second);
    }
}

/// The outcome of a concatenated trace is the outcome of its first part if
/// the waiter returns there, and else that of the second part, run from
/// where the first part left the call.
pub proof fn lemma_outcome_concat<T>(call: Call<T>, first: Seq<Event<T>>, second: Seq<Event<T>>)
    ensures
        call.outcome(first + second) == match call.outcome(first) {
            Some(outcome) => Some(outcome),
            None => call.run(first).outcome(second),
        },
    decreases first.len(),
{
    if first.len() == 0 {
        assert(first + second =~= second);
    } else {
        assert((first + second).drop_first() =~= first.drop_first() + second);
        lemma_outcome_concat(call.next(first[0]), first.drop_first(), second);
    }
}

/// A trace of one event is one step.
proof fn lemma_single_event<T>(call: Call<T>, event: Event<T>)
    ensures
        call.run(seq![event]) == call.next(event),
        call.outcome(seq![event]) == match call.action(event) {
            Action::Return(outcome) => Some(outcome),
            _ => None,
        },
{
    let single = seq![event];
    assert(single.len() == 1 && single[0] == event);
    assert(single.drop_first().len() == 0);
    assert(call.next(event).run(single.drop_first()) == call.next(event));
    assert(call.next(event).outcome(single.drop_first()) is None);
}

/// While the slot is empty, looks that come before the timeout change
/// nothing and return nothing.
proof fn lemma_early_wakes_keep_waiting<T>(call: Call<T>, wakes: Seq<Event<T>>)
    requires
        call.slot is Empty,
        forall|i: int| 0 <= i < wakes.len() ==> (#[trigger] wakes[i]).is_early_wake(call.timeout_ms),
    ensures
        call.run(wakes) == call,
        call.outcome(wakes) is None,
    decreases wakes.len(),
{
    if wakes.len() > 0 {
        assert(wakes[0].is_early_wake(call.timeout_ms));
        assert forall|i: int| 0 <= i < wakes.drop_first().len() implies (
        #[trigger] wakes.drop_first()[i]).is_early_wake(call.timeout_ms) by {
            assert(wakes.drop_first()[i] == wakes[i + 1]);
        }
        lemma_early_wakes_keep_waiting(call, wakes.drop_first());
    }
}

/// While the slot is filled, further completions change nothing and
/// return nothing.
proof fn lemma_repeated_completions_are_dropped<T>(call: Call<T>, writes: Seq<Event<T>>)
    requires
        call.slot is Filled,
        forall|i: int| 0 <= i < writes.len() ==> (#[trigger] writes[i]) is Completed,
    ensures
        call.run(writes) == call,
        call.outcome(writes) is None,
    decreases writes.len(),
{
    if writes.len() > 0 {
        assert(writes[0] is Completed);
        assert forall|i: int| 0 <= i < writes.drop_first().len() implies (
        #[trigger] writes.drop_first()[i]) is Completed by {
            assert(writes.drop_first()[i] == writes[i + 1]);
        }
        lemma_repeated_completions_are_dropped(call, writes.drop_first());
    }
}

/// A completion that arrives while the waiter is still waiting is what the
/// waiter returns at its next look, whatever the clock says at that look.
///
/// `before` holds the waiter's looks so far, all of them before the
/// timeout; `between` holds any further invocations of the callback; `wake`
/// is the waiter's next look, with any elapsed time and any timeout flag;
/// `after` is whatever follows.
pub proof fn law_completion_is_delivered<T>(
    timeout_ms: nat,
    before: Seq<Event<T>>,
    completion: Completion<T>,
    between: Seq<Event<T>>,
    wake: Event<T>,
    after: Seq<Event<T>>,
)
    requires
        forall|i: int| 0 <= i < before.len() ==> (#[trigger] before[i]).is_early_wake(timeout_ms),
        forall|i: int| 0 <= i < between.len() ==> (#[trigger] between[i]) is Completed,
        wake is Woke,
    ensures
        Call::start(timeout_ms).outcome(
            before + seq![Event::Completed(completion)] + between + seq![wake] + after,
        ) == Some(Outcome::of_completion(completion)),
{
    let start = Call::<T>::start(timeout_ms);
    let write = seq![Event::Completed(completion)];
    let look = seq![wake];
    let filled = Call { timeout_ms, slot: Slot::Filled(completion) };

    lemma_early_wakes_keep_waiting(start, before);
    lemma_single_event(start, Event::Completed(completion));
    assert(start.run(write) == filled);
    lemma_repeated_completions_are_dropped(filled, between);
    lemma_single_event(filled, wake);

    lemma_outcome_concat(start, before, write);
    lemma_run_concat(start, before, write);
    lemma_outcome_concat(start, before + write, between);
    lemma_run_concat(start, before + write, between);
    lemma_outcome_concat(start, before + write + between, look);
    lemma_outcome_concat(start, before + write + between + look, after);
}

/// A success payload delivered before the waiter gives up is returned as
/// `Success` with that very payload, never as `TimedOut`.
pub proof fn law_success_is_delivered<T>(
    timeout_ms: nat,
    before: Seq<Event<T>>,
    payload: T,
    between: Seq<Event<T>>,
    wake: Event<T>,
    after: Seq<Event<T>>,
)
    requires
        forall|i: int| 0 <= i < before.len() ==> (#[trigger] before[i]).is_early_wake(timeout_ms),
        forall|i: int| 0 <= i < between.len() ==> (#[trigger] between[i]) is Completed,
        wake is Woke,
    ensures
        Call::start(timeout_ms).outcome(
            before + seq![Event::Completed(Ok(payload))] + between + seq![wake] + after,
        ) == Some(Outcome::Success(payload)),
{
    law_completion_is_delivered(timeout_ms, before, Ok(payload), between, wake, after);
}

/// An error delivered before the waiter gives up is returned as `Failure`
/// with that error's description, however close to the timeout the waiter's
/// next look falls, and even if that look reports a timeout.
pub proof fn law_failure_is_delivered<T>(
    timeout_ms: nat,
    before: Seq<Event<T>>,
    description: Seq<char>,
    between: Seq<Event<T>>,
    wake: Event<T>,
    after: Seq<Event<T>>,
)
    requires
        forall|i: int| 0 <= i < before.len() ==> (#[trigger] before[i]).is_early_wake(timeout_ms),
        forall|i: int| 0 <= i < between.len() ==> (#[trigger] between[i]) is Completed,
        wake is Woke,
    ensures
        Call::<T>::start(timeout_ms).outcome(
            before + seq![Event::Completed(Err(description))] + between + seq![wake] + after,
        ) == Some(Outcome::<T>::Failure(description)),
{
    law_completion_is_delivered::<T>(timeout_ms, before, Err(description), between, wake, after);
}

/// If the callback never fires and the lock is never poisoned, the waiter
/// returns nothing but `TimedOut`, and it returns exactly at its first look
/// that reports a timeout or finds no time left: not before.
pub proof fn law_silence_times_out<T>(timeout_ms: nat, looks: Seq<Event<T>>)
    requires
        forall|i: int| 0 <= i < looks.len() ==> (#[trigger] looks[i]) is Woke,
    ensures
        Call::start(timeout_ms).outcome(looks) == if exists|i: int|
            0 <= i < looks.len() && (#[trigger] looks[i]).is_final_wake(timeout_ms) {
            Some(Outcome::<T>::TimedOut)
        } else {
            None
        },
    decreases looks.len(),
{
    let start = Call::<T>::start(timeout_ms);
    if looks.len() > 0 {
        assert(looks[0] is Woke);
        let rest = looks.drop_first();
        assert forall|i: int| 0 <= i < rest.len() implies (#[trigger] rest[i]) is Woke by {
            assert(rest[i] == looks[i + 1]);
        }
        law_silence_times_out(timeout_ms, rest);
        if looks[0].is_final_wake(timeout_ms) {
        } else {
            assert(start.next(looks[0]) == start);
            if exists|i: int| 0 <= i < rest.len() && (#[trigger] rest[i]).is_final_wake(timeout_ms) {
                let i = choose|i: int|
                    0 <= i < rest.len() && (#[trigger] rest[i]).is_final_wake(timeout_ms);
                assert(looks[i + 1] == rest[i]);
            } else {
                assert forall|i: int| 0 <= i < looks.len() implies !(
                #[trigger] looks[i]).is_final_wake(timeout_ms) by {
                    if i > 0 {
                        assert(rest[i - 1] == looks[i]);
                    }
                }
            }
        }
    }
}

/// Once the waiter has returned, the call is inert: every later event, a
/// late callback included, is ignored and leaves the call as it was.
pub proof fn law_finished_call_is_inert<T>(call: Call<T>, late: Seq<Event<T>>)
    requires
        call.finished(),
    ensures
        call.run(late) == call,
        call.outcome(late) is None,
        forall|event: Event<T>| #[trigger] call.action(event) == Action::<T>::Ignore,
    decreases late.len(),
{
    if late.len() > 0 {
        law_finished_call_is_inert(call, late.drop_first());
    }
}

/// The waiter returns at most once: a trace in which it has returned
/// leaves the call finished, so nothing that follows changes the outcome or
/// the call.
pub proof fn law_outcome_is_final<T>(call: Call<T>, events: Seq<Event<T>>, late: Seq<Event<T>>)
    requires
        call.outcome(events) is Some,
    ensures
        call.run(events).finished(),
        call.outcome(events + late) == call.outcome(events),
        call.run(events + late) == call.run(events),
    decreases events.len(),
{
    lemma_outcome_concat(call, events, late);
    lemma_run_concat(call, events, late);
    lemma_return_finishes(call, events);
    law_finished_call_is_inert(call.run(events), late);
}

/// A trace in which the waiter returns leaves the call finished.
proof fn lemma_return_finishes<T>(call: Call<T>, events: Seq<Event<T>>)
    requires
        call.outcome(events) is Some,
    ensures
        call.run(events).finished(),
    decreases events.len(),
{
    if events.len() > 0 {
        if call.action(events[0]) is Return {
            law_finished_call_is_inert(call.next(events[0]), events.drop_first());
        } else {
            lemma_return_finishes(call.next(events[0]), events.drop_first());
        }
    }
}

/// The events of an interleaved trace that are addressed to one of two
/// calls: `true` tags the first call, `false` the second.
pub open spec fn addressed_to<T>(interleaved: Seq<(bool, Event<T>)>, first: bool) -> Seq<Event<T>>
    decreases interleaved.len(),
{
    if interleaved.len() == 0 {
        Seq::empty()
    } else {
        let rest = addressed_to(interleaved.drop_first(), first);
        if interleaved[0].0 == first {
            seq![interleaved[0].1] + rest
        } else {
            rest
        }
    }
}

/// Two calls side by side, each event applied to the call that it is
/// addressed to.
pub open spec fn run_side_by_side<T>(
    first: Call<T>,
    second: Call<T>,
    interleaved: Seq<(bool, Event<T>)>,
) -> (Call<T>, Call<T>)
    decreases interleaved.len(),
{
    if interleaved.len() == 0 {
        (first, second)
    } else if interleaved[0].0 {
        run_side_by_side(first.next(interleaved[0].1), second, interleaved.drop_first())
    } else {
        run_side_by_side(first, second.next(interleaved[0].1), interleaved.drop_first())
    }
}

/// Calls share no state: however the events of two calls interleave, each
/// call ends where its own events alone would have taken it.
pub proof fn law_calls_are_independent<T>(
    first: Call<T>,
    second: Call<T>,
    interleaved: Seq<(bool, Event<T>)>,
)
    ensures
        run_side_by_side(first, second, interleaved) == (
            first.run(addressed_to(interleaved, true)),
            second.run(addressed_to(interleaved, false)),
        ),
    decreases interleaved.len(),
{
    if interleaved.len() > 0 {
        let event = interleaved[0].1;
        let rest = interleaved.drop_first();
        if interleaved[0].0 {
            law_calls_are_independent(first.next(event), second, rest);
            lemma_run_concat(first, seq![event], addressed_to(rest, true));
            lemma_single_event(first, event);
        } else {
            law_calls_are_independent(first, second.next(event), rest);
            lemma_run_concat(second, seq![event], addressed_to(rest, false));
            lemma_single_event(second, event);
        }
    }
}

} // verus!

//! One bridge call as an event-driven state machine.

use super::model::{Action, Call, Event, Outcome, PoisonSite, poison_description};
use super::outcome::{BridgeOutcome, completion_view};
use super::slot::PendingResult;
use vstd::prelude::*;

verus! {

/// Something that the embedding program observed and reports to the call.
#[derive(Debug)]
pub enum BridgeEvent<T> {
    /// The external subsystem invoked the completion callback.
    Completed(Result<T, String>),
    /// The waiter holds the lock and looks at the slot, `elapsed_ms` after
    /// the call began; `timed_out` is what the bounded wait it just left
    /// reported (false for the first look, before any wait).
    Woke { elapsed_ms: u64, timed_out: bool },
    /// The waiter found the lock poisoned.
    Poisoned(PoisonSite),
}

impl<T> View for BridgeEvent<T> {
    type V = Event<T>;

    open spec fn view(&self) -> Event<T> {
        match *self {
            BridgeEvent::Completed(completion) => Event::Completed(completion_view(completion)),
            BridgeEvent::Woke { elapsed_ms, timed_out } => Event::Woke {
                elapsed_ms: elapsed_ms as nat,
                timed_out,
            },
            BridgeEvent::Poisoned(site) => Event::Poisoned(site),
        }
    }
}

/// What the reporter of an event has to do next.
#[derive(Debug, PartialEq, Eq)]
pub enum BridgeAction<T> {
    /// Waiter: block on the condition signal for at most this long, then
    /// report `Woke` again.
    Wait { remaining_ms: u64 },
    /// Waiter: return this outcome to the synchronous caller.
    Return(BridgeOutcome<T>),
    /// Callback: the result was stored; signal the waiter.
    Notify,
    /// Nothing to do: the event came too late or was a repeated write.
    Ignore,
}

impl<T> View for BridgeAction<T> {
    type V = Action<T>;

    open spec fn view(&self) -> Action<T> {
        match *self {
            BridgeAction::Wait { remaining_ms } => Action::Wait { remaining_ms: remaining_ms as nat },
            BridgeAction::Return(outcome) => Action::Return(outcome@),
            BridgeAction::Notify => Action::Notify,
            BridgeAction::Ignore => Action::Ignore,
        }
    }
}

/// Views of a list of events, in order.
pub open spec fn events_view<T>(events: Seq<BridgeEvent<T>>) -> Seq<Event<T>> {
    events.map_values(|event: BridgeEvent<T>| event@)
}

/// View of an optional outcome.
pub open spec fn outcome_view<T>(outcome: Option<BridgeOutcome<T>>) -> Option<Outcome<T>> {
    match outcome {
        Some(outcome) => Some(outcome@),
        None => None,
    }
}

impl PoisonSite {
    /// The description that a `Failure` carries for a lock found poisoned
    /// at this site.
    pub fn description(self) -> (text: String)
        ensures
            text@ == poison_description(self),
    {
        match self {
            PoisonSite::Lock => "Lock failed".to_owned(),
            PoisonSite::Wait => "Condition variable wait failed".to_owned(),
        }
    }
}

/// One bridge call: a timeout in milliseconds and the slot for its result.
///
/// The call is `Pending` from its creation until the waiter is told to
/// `Return`; from then on it is finished and ignores every event.
#[derive(Debug)]
pub struct BridgeCall<T> {
    timeout_ms: u64,
    slot: PendingResult<T>,
}

impl<T> View for BridgeCall<T> {
    type V = Call<T>;

    closed spec fn view(&self) -> Call<T> {
        Call { timeout_ms: self.timeout_ms as nat, slot: self.slot@ }
    }
}

impl<T> BridgeCall<T> {
    /// Begins a call that waits at most `timeout_ms` milliseconds. With a
    /// timeout of zero the first look at the slot decides.
    pub fn new(timeout_ms: u64) -> (call: Self)
        ensures
            call@ == Call::<T>::start(timeout_ms as nat),
    {
        BridgeCall { timeout_ms, slot: PendingResult::new() }
    }

    /// The timeout that the call was begun with.
    pub fn timeout_ms(&self) -> (ms: u64)
        ensures
            ms == self@.timeout_ms,
    {
        self.timeout_ms
    }

    /// Whether the waiter has been told to return.
    pub fn is_finished(&self) -> (b: bool)
        ensures
            b == self@.finished(),
    {
        self.slot.is_consumed()
    }

    /// Applies one event and says what its reporter has to do.
    ///
    /// * `Completed` stores the completion in an empty slot (`Notify`); on
    ///   a filled or finished call it is dropped (`Ignore`).
    /// * `Woke` on a filled slot returns `Success` or `Failure` with what
    ///   was stored, whatever the clock says; on an empty slot it returns
    ///   `TimedOut` if the wait reported a timeout or no time remains, and
    ///   else asks to wait for exactly the time that remains.
    /// * `Poisoned` returns `Failure` with the site's description.
    /// * A finished call ignores everything.
    pub fn step(&mut self, event: BridgeEvent<T>) -> (action: BridgeAction<T>)
        ensures
            action@ == old(self)@.action(event@),
            final(self)@ == old(self)@.next(event@),
    {
        if self.slot.is_consumed() {
            return BridgeAction::Ignore;
        }
        match event {
            BridgeEvent::Completed(completion) => {
                if self.slot.complete(completion) {
                    BridgeAction::Notify
                } else {
                    BridgeAction::Ignore
                }
            },
            BridgeEvent::Woke { elapsed_ms, timed_out } => {
                if self.slot.is_filled() {
                    BridgeAction::Return(BridgeOutcome::from_taken(self.slot.take()))
                } else if timed_out || elapsed_ms >= self.timeout_ms {
                    let _ = self.slot.take();
                    BridgeAction::Return(BridgeOutcome::TimedOut)
                } else {
                    BridgeAction::Wait { remaining_ms: self.timeout_ms - elapsed_ms }
                }
            },
            BridgeEvent::Poisoned(site) => {
                let _ = self.slot.take();
                BridgeAction::Return(BridgeOutcome::Failure(site.description()))
            },
        }
    }

    /// Runs a fresh call with the given timeout through a recorded trace of
    /// events and returns the outcome that the waiter is told to return, or
    /// `None` if the trace ends while the waiter is still waiting.
    pub fn replay(timeout_ms: u64, events: Vec<BridgeEvent<T>>) -> (outcome: Option<
        BridgeOutcome<T>,
    >)
        ensures
            outcome_view(outcome) == Call::<T>::start(timeout_ms as nat).outcome(
                events_view(events@),
            ),
    {
        let mut call = BridgeCall::new(timeout_ms);
        let ghost trace = events_view(events@);
        proof {
            assert(trace.skip(0) =~= trace);
        }
        for event in iter: events
            invariant
                trace == events_view(iter.seq()),
                call@.outcome(trace.skip(iter.index() as int)) == Call::<T>::start(
                    timeout_ms as nat,
                ).outcome(trace),
        {
            proof {
                assert(trace.skip(iter.index() as int).drop_first() =~= trace.skip(
                    iter.index() + 1,
                ));
            }
            match call.step(event) {
                BridgeAction::Return(outcome) => {
                    return Some(outcome);
                },
                _ => {},
            }
        }
        None
    }
}

} // verus!

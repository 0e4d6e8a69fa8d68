//! Mathematical model of one bridge call.

use vstd::prelude::*;

verus! {

/// What the completion callback delivers: a payload or an error description.
pub type Completion<T> = Result<T, Seq<char>>;

/// State of the single-assignment slot shared by waiter and callback.
pub enum Slot<T> {
    /// Nothing has been written and the waiter has not given up.
    Empty,
    /// The callback wrote its result; the waiter has not taken it yet.
    Filled(Completion<T>),
    /// The waiter took whatever was there and returned. Terminal.
    Consumed,
}

/// Result of a bridge call.
pub enum Outcome<T> {
    Success(T),
    Failure(Seq<char>),
    TimedOut,
}

/// Where a poisoned lock was detected.
#[derive(Clone, Copy, Debug, PartialEq, Eq)]
pub enum PoisonSite {
    /// While acquiring the lock.
    Lock,
    /// While waiting on the condition signal.
    Wait,
}

/// Something that happens to a bridge call.
pub enum Event<T> {
    /// The external subsystem invoked the completion callback.
    Completed(Completion<T>),
    /// The waiter holds the lock and looks at the slot, `elapsed_ms` after
    /// the call began. `timed_out` is what the bounded wait it just left
    /// reported (false for the first look, before any wait).
    Woke { elapsed_ms: nat, timed_out: bool },
    /// The waiter found the lock poisoned.
    Poisoned(PoisonSite),
}

/// What the party that reported an event has to do next.
pub enum Action<T> {
    /// Waiter: block on the condition signal for at most this long.
    Wait { remaining_ms: nat },
    /// Waiter: return this outcome to the synchronous caller.
    Return(Outcome<T>),
    /// Callback: the result was stored; signal the waiter.
    Notify,
    /// Nothing to do: the event came too late or was a repeated write.
    Ignore,
}

/// Description carried by the `Failure` that reports a poisoned lock.
pub open spec fn poison_description(site: PoisonSite) -> Seq<char> {
    match site {
        PoisonSite::Lock => "Lock failed"@,
        PoisonSite::Wait => "Condition variable wait failed"@,
    }
}

impl<T> Outcome<T> {
    /// The outcome for what the waiter took out of the slot.
    pub open spec fn of_taken(taken: Option<Completion<T>>) -> Self {
        match taken {
            Some(Ok(payload)) => Outcome::Success(payload),
            Some(Err(description)) => Outcome::Failure(description),
            None => Outcome::TimedOut,
        }
    }

    /// The outcome for a delivered completion.
    pub open spec fn of_completion(completion: Completion<T>) -> Self {
        Self::of_taken(Some(completion))
    }

    /// Whether the caller has to substitute its safe default.
    pub open spec fn degraded(self) -> bool {
        !(self is Success)
    }
}

impl<T> Slot<T> {
    /// The slot after a write attempt: only an empty slot accepts it.
    pub open spec fn complete(self, completion: Completion<T>) -> Self {
        match self {
            Slot::Empty => Slot::Filled(completion),
            _ => self,
        }
    }

    /// What the waiter finds when it takes the slot's content.
    pub open spec fn taken(self) -> Option<Completion<T>> {
        match self {
            Slot::Filled(completion) => Some(completion),
            _ => None,
        }
    }
}

impl<T> Event<T> {
    /// A look at the slot that lets the wait go on if the slot is empty:
    /// the wait did not report a timeout and time remains.
    pub open spec fn is_early_wake(self, timeout_ms: nat) -> bool {
        self matches Event::Woke { elapsed_ms, timed_out } && !timed_out && elapsed_ms < timeout_ms
    }

    /// A look at the slot at which the waiter gives up on an empty slot.
    pub open spec fn is_final_wake(self, timeout_ms: nat) -> bool {
        self matches Event::Woke { elapsed_ms, timed_out } && (timed_out || elapsed_ms
            >= timeout_ms)
    }
}

/// One bridge call: its timeout and its slot.
pub struct Call<T> {
    pub timeout_ms: nat,
    pub slot: Slot<T>,
}

impl<T> Call<T> {
    /// A call that has just begun.
    pub open spec fn start(timeout_ms: nat) -> Self {
        Call { timeout_ms, slot: Slot::Empty }
    }

    /// The waiter has returned; nothing can change this call any more.
    pub open spec fn finished(self) -> bool {
        self.slot is Consumed
    }

    /// What the reporter of `event` has to do.
    pub open spec fn action(self, event: Event<T>) -> Action<T> {
        match self.slot {
            Slot::Consumed => Action::Ignore,
            Slot::Empty => match event {
                Event::Completed(_) => Action::Notify,
                Event::Woke { elapsed_ms, timed_out } => if timed_out || elapsed_ms
                    >= self.timeout_ms {
                    Action::Return(Outcome::TimedOut)
                } else {
                    Action::Wait { remaining_ms: (self.timeout_ms - elapsed_ms) as nat }
                },
                Event::Poisoned(site) => Action::Return(Outcome::Failure(poison_description(site))),
            },
            Slot::Filled(completion) => match event {
                Event::Completed(_) => Action::Ignore,
                Event::Woke { .. } => Action::Return(Outcome::of_completion(completion)),
                Event::Poisoned(site) => Action::Return(Outcome::Failure(poison_description(site))),
            },
        }
    }

    /// The call after `event`.
    pub open spec fn next(self, event: Event<T>) -> Self {
        match self.action(event) {
            Action::Return(_) => Call { slot: Slot::Consumed, ..self },
            Action::Notify => match event {
                Event::Completed(completion) => Call { slot: self.slot.complete(completion), ..self },
                _ => self,
            },
            _ => self,
        }
    }

    /// The call after a whole trace of events.
    pub open spec fn run(self, events: Seq<Event<T>>) -> Self
        decreases events.len(),
    {
        if events.len() == 0 {
            self
        } else {
            self.next(events[0]).run(events.drop_first())
        }
    }

    /// The outcome that the waiter returns in the course of `events`, if it
    /// returns at all: the one carried by the first `Return` action.
    pub open spec fn outcome(self, events: Seq<Event<T>>) -> Option<Outcome<T>>
        decreases events.len(),
    {
        if events.len() == 0 {
            None
        } else {
            match self.action(events[0]) {
                Action::Return(outcome) => Some(outcome),
                _ => self.next(events[0]).outcome(events.drop_first()),
            }
        }
    }
}

} // verus!

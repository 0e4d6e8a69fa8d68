//! The three-way outcome of a bridge call and the caller's fallback rule.

use super::model::{Completion, Outcome};
use vstd::prelude::*;

verus! {

/// View of a completion as the model sees it: the error by its characters.
pub open spec fn completion_view<T>(completion: Result<T, String>) -> Completion<T> {
    match completion {
        Ok(payload) => Ok(payload),
        Err(description) => Err(description@),
    }
}

/// View of an optional completion.
pub open spec fn taken_view<T>(taken: Option<Result<T, String>>) -> Option<Completion<T>> {
    match taken {
        Some(completion) => Some(completion_view(completion)),
        None => None,
    }
}

/// What a bridge call hands back to its synchronous caller.
#[derive(Debug, PartialEq, Eq)]
pub enum BridgeOutcome<T> {
    /// The callback fired with a payload before the waiter gave up.
    Success(T),
    /// The callback fired with an error, or the shared lock was poisoned.
    Failure(String),
    /// The wait elapsed and the slot was still empty.
    TimedOut,
}

impl<T> View for BridgeOutcome<T> {
    type V = Outcome<T>;

    open spec fn view(&self) -> Outcome<T> {
        match *self {
            BridgeOutcome::Success(payload) => Outcome::Success(payload),
            BridgeOutcome::Failure(description) => Outcome::Failure(description@),
            BridgeOutcome::TimedOut => Outcome::TimedOut,
        }
    }
}

impl<T> BridgeOutcome<T> {
    /// Turns what the waiter took out of the slot into the call's outcome:
    /// a payload is `Success`, an error is `Failure`, an empty slot is
    /// `TimedOut`.
    pub fn from_taken(taken: Option<Result<T, String>>) -> (outcome: Self)
        ensures
            outcome@ == Outcome::of_taken(taken_view(taken)),
            taken matches Some(Ok(payload)) ==> outcome == BridgeOutcome::Success(payload),
            taken matches Some(Err(description)) ==> outcome == BridgeOutcome::<T>::Failure(
                description,
            ),
    {
        match taken {
            Some(Ok(payload)) => BridgeOutcome::Success(payload),
            Some(Err(description)) => BridgeOutcome::Failure(description),
            None => BridgeOutcome::TimedOut,
        }
    }

    /// True exactly for `Success`.
    pub fn is_success(&self) -> (b: bool)
        ensures
            b == (self@ is Success),
    {
        match self {
            BridgeOutcome::Success(_) => true,
            _ => false,
        }
    }

    /// True for `Failure` and `TimedOut`: the caller is running on fallback
    /// data and should report that, while still returning usable data.
    pub fn is_degraded(&self) -> (b: bool)
        ensures
            b == self@.degraded(),
    {
        !self.is_success()
    }

    /// The caller's side of the bridge: convert the payload of a `Success`,
    /// and substitute a locally computed safe default for `Failure` and
    /// `TimedOut`. Exactly one of the two closures runs, once.
    pub fn resolve<U, C, D>(self, convert: C, fallback: D) -> (value: U) where
        C: FnOnce(T) -> U,
        D: FnOnce() -> U,

        requires
            self matches BridgeOutcome::Success(payload) ==> convert.requires((payload,)),
            self@.degraded() ==> fallback.requires(()),
        ensures
            match self {
                BridgeOutcome::Success(payload) => convert.ensures((payload,), value),
                _ => fallback.ensures((), value),
            },
    {
        match self {
            BridgeOutcome::Success(payload) => convert(payload),
            _ => fallback(),
        }
    }
}

} // verus!

//! The single-assignment slot that the callback writes and the waiter takes.

use super::model::Slot;
use super::outcome::{completion_view, taken_view};
use vstd::prelude::*;

verus! {

/// Slot for the one result of a bridge call.
///
/// It is created empty, accepts one write, and is emptied for good when the
/// waiter takes its content. The embedding program shares it between the
/// waiting thread and the callback behind its lock; every access goes
/// through the methods below, so a second or late write can neither replace
/// a result nor resurrect a slot that the waiter has left.
#[derive(Debug)]
pub struct PendingResult<T> {
    value: Option<Result<T, String>>,
    consumed: bool,
}

impl<T> View for PendingResult<T> {
    type V = Slot<T>;

    closed spec fn view(&self) -> Slot<T> {
        if self.consumed {
            Slot::Consumed
        } else {
            match self.value {
                Some(completion) => Slot::Filled(completion_view(completion)),
                None => Slot::Empty,
            }
        }
    }
}

impl<T> PendingResult<T> {
    /// An empty slot.
    pub fn new() -> (slot: Self)
        ensures
            slot@ == Slot::<T>::Empty,
    {
        PendingResult { value: None, consumed: false }
    }

    /// Whether nothing has been written and the waiter has not left.
    pub fn is_pending(&self) -> (b: bool)
        ensures
            b == (self@ is Empty),
    {
        !self.consumed && self.value.is_none()
    }

    /// Whether a result is waiting to be taken.
    pub fn is_filled(&self) -> (b: bool)
        ensures
            b == (self@ is Filled),
    {
        !self.consumed && self.value.is_some()
    }

    /// Whether the waiter has taken the content and left.
    pub fn is_consumed(&self) -> (b: bool)
        ensures
            b == (self@ is Consumed),
    {
        self.consumed
    }

    /// The callback's write. An empty slot stores `completion` and the call
    /// returns true; a filled or consumed slot is left as it is, the
    /// completion is dropped, and the call returns false.
    pub fn complete(&mut self, completion: Result<T, String>) -> (accepted: bool)
        ensures
            accepted == (old(self)@ is Empty),
            final(self)@ == old(self)@.complete(completion_view(completion)),
    {
        if !self.consumed && self.value.is_none() {
            self.value = Some(completion);
            true
        } else {
            false
        }
    }

    /// The waiter's read: moves the content out and leaves the slot
    /// consumed. Returns the completion if one was stored, else `None`.
    pub fn take(&mut self) -> (taken: Option<Result<T, String>>)
        ensures
            taken_view(taken) == old(self)@.taken(),
            final(self)@ == Slot::<T>::Consumed,
    {
        if self.consumed {
            None
        } else {
            self.consumed = true;
            self.value.take()
        }
    }
}

} // verus!

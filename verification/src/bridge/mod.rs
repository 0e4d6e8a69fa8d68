//! Timeout-guarded bridge from a completion callback to a blocking call.
//!
//! An asynchronous operation completes by invoking a callback once, on a
//! thread of its own choosing, with either a payload or an error. The caller
//! wants a synchronous answer within a bounded wait. This module holds every
//! decision of that rendezvous:
//!
//! * [`model`] is the mathematical description: slot, events, actions and
//!   the transition function, over `Seq<char>` and `nat`.
//! * [`outcome`], [`slot`] and [`call`] are the executable types, each
//!   with a view into the model.
//! * [`laws`] proves what the model guarantees over whole event traces.
//!
//! The blocking wait itself belongs to the embedding program: it locks,
//! waits on its condition signal, and reports what it saw as a
//! [`call::BridgeEvent`]; [`call::BridgeCall::step`] answers with what to do
//! next.

pub mod call;
pub mod laws;
pub mod model;
pub mod outcome;
pub mod slot;

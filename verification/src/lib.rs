//! Verified decision logic for a screen-capture binding layer.
//!
//! The heart of the crate is the timeout-guarded bridge in [`bridge`]: the
//! rules that turn a one-shot completion callback into a bounded, blocking
//! call, with the laws that hold of every run. The other modules hold the
//! plain-data rules that the binding layer applies to what the operating
//! system reports:
//!
//! * [`content`], [`surface`], [`display_list`] and [`window_list`]: the
//!   displays and windows that can be captured, and the sources offered
//!   for them;
//! * [`screen_id`] and [`text`]: the identifiers of sources, written and
//!   read;
//! * [`recorder`], [`stream`], [`delegate`] and [`config`]: what a
//!   recording remembers, counts and is configured with;
//! * [`bindings`], [`audio`], [`version`], [`status`], [`diagnostics`] and
//!   [`error`]: the framework's constants, the audio devices, the
//!   supported system versions, the status documents, the reports of the
//!   self-tests, and the error type.
//!
//! Nothing in the library blocks, locks or touches a foreign object. The
//! embedding program does that and reports what it saw.

pub mod audio;
pub mod bindings;
pub mod bridge;
pub mod config;
pub mod content;
pub mod delegate;
pub mod diagnostics;
pub mod display_list;
pub mod error;
pub mod recorder;
pub mod screen_id;
pub mod status;
pub mod stream;
pub mod surface;
pub mod text;
pub mod version;
pub mod window_list;

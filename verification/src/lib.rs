//! A mobile UI test-flow runner core.
//!
//! A flow file describes a test scenario as an ordered list of steps (tap,
//! assert, swipe, run a sub-flow, ...).  This crate holds the verified engine:
//! decoding documents into the step model, flattening sub-flow references into
//! one linear instruction stream, resolving element selectors into backend
//! query expressions, the step-dispatch state machine, and the
//! percentage-to-pixel gesture arithmetic.  Driving a live automation backend
//! (a WebDriver-style session) is left to an unverified front end that runs
//! the command/event loop the state machine prescribes.

pub mod actions;
pub mod android;
pub mod executor;
pub mod flatten;
pub mod flow;
pub mod gesture;
pub mod ios;
pub mod loader;
pub mod logging;
pub mod reporting;
pub mod selector;
pub mod strutil;
pub mod tags;

use vstd::prelude::*;

verus! {

} // verus!

//! A self-contained 2D game runtime: a declarative scene description is
//! interpreted into a live, steppable, renderable world that responds to
//! keyboard input, together with the small pieces of host-facing logic
//! (directory-listing order, file-watch filtering, chat response shaping)
//! that the surrounding editor relies on.
//!
//! The physics engine is an external capability: the runtime decides what
//! should happen each frame (velocity commands, a clamped time step) and the
//! host applies those decisions to its engine, handing contact events and
//! body poses back.

pub mod chat;
pub mod files;
pub mod grounding;
pub mod input;
pub mod interpreter;
pub mod laws;
pub mod model;
pub mod render;
pub mod runtime;
pub mod strutil;
pub mod watch;

use vstd::prelude::*;

verus! {

/// Library initialization. The runtime keeps no global state, so there is
/// nothing to set up; this exists for hosts that expect an entry point.
pub fn init() {
}

} // verus!

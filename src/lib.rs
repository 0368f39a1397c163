//! Verified core of a terminal ray tracer: the scene-description grammar,
//! the command-line size argument, file paths relative to a scene file, and
//! the frame clock that paces the render loop.
use vstd::prelude::*;

pub mod pacing;
pub mod paths;
pub mod scene;
pub mod text;

verus! {

} // verus!

//! The front-end's side of an editor engine that runs as a child process:
//! the bridge that carries commands to the engine, the rules by which the
//! window's events become commands, and the notation of keys.
use vstd::prelude::*;

pub mod bridge;
pub mod keyboard;
pub mod keys;
pub mod text;
pub mod window;

verus! {

/// Grid size used when no geometry is requested: columns, then rows.
pub const INITIAL_DIMENSIONS: (u64, u64) = (100, 50);

} // verus!

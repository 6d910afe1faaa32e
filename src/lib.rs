//! Safe, verified state for driving a projectM visualization engine.
//!
//! The engine itself is a native library reached through a C interface.
//! This crate holds everything the wrapper decides on its side of that
//! interface: the lifecycle of an engine handle, the parameters set through
//! it, the conversion and validation of every argument before it crosses the
//! boundary, the dispatch of the engine's two event callbacks, and the
//! traversal state of a preset playlist. Each operation records the native
//! call it requires as a [`native::NativeCall`]; the embedding program
//! performs those calls against the engine in order.

use vstd::prelude::*;

pub mod engine;
pub mod ctext;
pub mod error;
pub mod native;
pub mod playlist;

verus! {

} // verus!

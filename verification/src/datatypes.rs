//! Width-typed value aliases used throughout the core.

use vstd::prelude::*;

verus! {

/// An 8-bit unsigned value.
pub type Byte = u8;

/// A 16-bit unsigned value.
pub type Word = u16;

} // verus!

//! Frame lifecycle of a swap-chain renderer: swap-chain configuration, frame
//! targets, command recording and the in-flight frame synchronizer.
use vstd::prelude::*;

pub mod surface;
pub mod targets;
pub mod frames;
pub mod recorder;
pub mod events;

verus! {
} // verus!

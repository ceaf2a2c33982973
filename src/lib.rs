//! Command orchestration for a tethered camera: a persisted shot counter,
//! the save/restore of device settings around captures, the plate-solve
//! deadline protocol and the routing of remote commands.
use vstd::prelude::*;

pub mod error;
pub mod decimal;
pub mod counter;
pub mod config;
pub mod command;
pub mod restore;
pub mod shutter;
pub mod solve;
pub mod shoot;

verus! {

} // verus!

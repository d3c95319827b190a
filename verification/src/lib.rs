//! Orchestration core for a device-driven particle simulation.
//!
//! The library tracks the compilation of two compute programs (`init` and
//! `update`), builds the bound resource set that ties the particle storage
//! buffer and the configuration buffer to their bind slots exactly once, and
//! decides, frame by frame, which program to dispatch and with what workgroup
//! grid.  Everything device-specific (the actual compiler, buffers and command
//! encoding) lives outside; this crate holds the decisions and proves them.

use vstd::prelude::*;

pub mod config;
pub mod extract;
pub mod grid;
pub mod pipeline;
pub mod binder;
pub mod dispatch;
pub mod laws;
pub mod session;

verus! {

/// Number of invocations a single workgroup of the compute programs covers.
/// Shared with the shader source; both dispatch-sizing policies divide by it.
pub const WORKGROUP_SIZE: u32 = 32;

} // verus!

//! Step orchestration for a GPU-resident particle simulation coupled to a
//! CPU-resident rigid-body world.
//!
//! The crate holds the per-frame control logic: the run-state machine that
//! gates simulation work, the draining of asynchronously produced timing
//! aggregates, the construction of the per-frame upload records for coupled
//! rigid bodies, and the summation of raw GPU timestamp samples into
//! per-stage totals. The GPU device, the rigid-body engine and the renderer
//! are external collaborators: the host samples their state into plain
//! values, hands them to this crate, and performs the command submissions
//! that the returned step plan describes.

pub mod coupling;
pub mod resources;
pub mod step;
pub mod timing;

//! Verified core of a D3D12-style frame-rendering pipeline.
//!
//! The modules here model the subsystems that carry real invariants:
//! adapter selection, swap-chain and render-target-view layout, per-frame
//! command recording with resource-state transitions, CPU/GPU fence
//! synchronization, and the render-loop policy that ties them together.
//! OS windowing, message pumping, and the graphics API calls themselves are
//! external collaborators; the surrounding application performs them and
//! feeds their outcomes into the functions of this crate.

pub mod adapter;
pub mod cmdline;
pub mod error;
pub mod fence;
pub mod recorder;
pub mod render_loop;
pub mod swapchain;

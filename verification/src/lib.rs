//! Per-frame sequencing of a GPU-driven forward renderer.
//!
//! A frame is planned in two steps. [`base::BaseRenderGraphIntermediateState::new`]
//! declares every render target and every piece of cross-pass data in a
//! [`graph::RenderGraph`]; the stage methods then declare the passes, in order,
//! each naming the handles it is given. [`base::BaseRenderGraph::add_to_graph`]
//! does both for a whole frame.
//!
//! The graph only records declarations. Executing it on a device is the
//! business of whoever walks the recorded targets, data slots and nodes.

pub mod base;
pub mod clear;
pub mod graph;
pub mod laws;
pub mod node;
pub mod plan;

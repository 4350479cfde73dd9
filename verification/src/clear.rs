//! A pass that draws nothing and only says what its targets are cleared to.

use vstd::prelude::*;

use crate::graph::{RenderGraph, RenderTargetHandle, Vec4Bits};
use crate::node::{Label, Node, RenderPassDepthTarget, RenderPassTarget, RenderPassTargets};

verus! {

/// The attachments of a clear pass. Without a colour target the pass has no
/// colour attachment at all, whatever `resolve` is.
pub open spec fn clear_targets(
    color: Option<RenderTargetHandle>,
    resolve: Option<RenderTargetHandle>,
    depth: RenderTargetHandle,
    clear_color: Vec4Bits,
    depth_clear: u32,
) -> RenderPassTargets {
    RenderPassTargets {
        target: match color {
            Some(color) => Some(RenderPassTarget { color, clear: clear_color, resolve }),
            None => None,
        },
        depth_stencil: Some(
            RenderPassDepthTarget { target: depth, depth_clear: Some(depth_clear), stencil_clear: None },
        ),
    }
}

/// The resolve target of a clear pass: a pass without a colour target has
/// none, whatever it was offered.
pub open spec fn clear_resolve(
    color: Option<RenderTargetHandle>,
    resolve: Option<RenderTargetHandle>,
) -> Option<RenderTargetHandle> {
    if color.is_some() {
        resolve
    } else {
        None
    }
}

/// The clear pass for the given targets and values. Without a colour target
/// it names the depth target and nothing else.
pub open spec fn clear_node(
    color: Option<RenderTargetHandle>,
    resolve: Option<RenderTargetHandle>,
    depth: RenderTargetHandle,
    clear_color: Vec4Bits,
    depth_clear: u32,
) -> Node {
    Node::Clear {
        label: Label::plain("Clear"),
        color,
        resolve: clear_resolve(color, resolve),
        depth,
        targets: clear_targets(color, resolve, depth, clear_color, depth_clear),
    }
}

/// Declares a pass that only sets what the given targets are cleared to.
///
/// The first pass that writes a target decides its clear value. Declaring
/// this pass before all others makes that first write explicit. Without a
/// colour target the pass clears depth only: `resolve` and `clear_color` are
/// then left aside. `depth_clear` is the bit pattern of a 32-bit float.
pub fn add_clear_to_graph(
    graph: &mut RenderGraph,
    color: Option<RenderTargetHandle>,
    resolve: Option<RenderTargetHandle>,
    depth: RenderTargetHandle,
    clear_color: Vec4Bits,
    depth_clear: u32,
)
    requires
        old(graph)@.has_optional_target(color),
        color.is_some() ==> old(graph)@.has_optional_target(resolve),
        old(graph)@.has_target(depth),
    ensures
        final(graph)@ == old(graph)@.with_node(clear_node(color, resolve, depth, clear_color, depth_clear)),
{
    let (target, resolve) = match color {
        Some(color) => (Some(RenderPassTarget { color, clear: clear_color, resolve }), resolve),
        None => (None, None),
    };
    let depth_stencil = Some(
        RenderPassDepthTarget { target: depth, depth_clear: Some(depth_clear), stencil_clear: None },
    );
    graph.add_node(
        Node::Clear {
            label: Label { prefix: "Clear", index: None },
            color,
            resolve,
            depth,
            targets: RenderPassTargets { target, depth_stencil },
        },
    );
}

} // verus!

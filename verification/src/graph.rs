//! The resources of a frame and the handles that name them.

use vstd::prelude::*;

use crate::node::Node;

verus! {

/// Number of samples per pixel of a render target.
#[derive(Debug, Clone, Copy, PartialEq, Eq, Structural, Hash)]
pub enum SampleCount {
    One,
    Four,
}

impl SampleCount {
    /// Whether rendering with this many samples ends in a resolve into a
    /// single-sample image.
    pub open spec fn needs_resolve(self) -> bool {
        self != SampleCount::One
    }
}

/// Asks `rend3::types::SampleCount::needs_resolve` whether `samples` calls
/// for a resolve target. That method compares its receiver with `One`, and
/// the contract says the same of the argument.
#[verifier::external_body]
pub(crate) fn resolve_needed(samples: SampleCount) -> (needed: bool)
    ensures
        needed == samples.needs_resolve(),
{
    let outside = match samples {
        SampleCount::One => rend3::types::SampleCount::One,
        SampleCount::Four => rend3::types::SampleCount::Four,
    };
    outside.needs_resolve()
}

/// Two unsigned components: an extent or an offset in texels.
#[derive(Debug, Clone, Copy, PartialEq, Eq, Structural, Hash)]
pub struct UVec2 {
    pub x: u32,
    pub y: u32,
}

impl UVec2 {
    /// The vector with both components equal to `v`.
    pub fn splat(v: u32) -> (r: UVec2)
        ensures
            r == (UVec2 { x: v, y: v }),
    {
        UVec2 { x: v, y: v }
    }
}

/// Four 32-bit floats, each held as its IEEE-754 bit pattern, so that a colour
/// is carried through the graph and compared bit for bit.
#[derive(Debug, Clone, Copy, PartialEq, Eq, Structural, Hash)]
pub struct Vec4Bits {
    pub x: u32,
    pub y: u32,
    pub z: u32,
    pub w: u32,
}

/// Rectangle of a render target that a pass draws into.
#[derive(Debug, Clone, Copy, PartialEq, Eq, Structural, Hash)]
pub struct ViewportRect {
    pub offset: UVec2,
    pub size: UVec2,
}

impl ViewportRect {
    pub fn new(offset: UVec2, size: UVec2) -> (r: ViewportRect)
        ensures
            r == (ViewportRect { offset, size }),
    {
        ViewportRect { offset, size }
    }
}

/// Half-open range of mip levels.
#[derive(Debug, Clone, Copy, PartialEq, Eq, Structural, Hash)]
pub struct MipRange {
    pub start: u8,
    pub end: u8,
}

/// Texel format of a render target.
#[derive(Debug, Clone, Copy, PartialEq, Eq, Structural, Hash)]
pub enum TextureFormat {
    /// Four half-precision channels, wide enough for light before tonemapping.
    Rgba16Float,
    Depth32Float,
}

/// What a render target may be used for.
#[derive(Debug, Clone, Copy, PartialEq, Eq, Structural, Hash)]
pub struct TextureUsages {
    pub render_attachment: bool,
    pub texture_binding: bool,
}

/// Description of one render target of a frame.
#[derive(Debug, Clone, Copy, PartialEq, Eq, Hash)]
pub struct RenderTargetDescriptor {
    pub label: Option<&'static str>,
    pub resolution: UVec2,
    pub depth: u32,
    /// `None` asks for the full chain down to one texel.
    pub mip_levels: Option<u8>,
    pub samples: SampleCount,
    pub format: TextureFormat,
    pub usage: TextureUsages,
}

/// Which image a render-target handle names.
#[derive(Debug, Clone, Copy, PartialEq, Eq, Structural, Hash)]
pub enum TargetResource {
    /// The image that the frame is presented on; it belongs to the caller.
    Surface,
    /// The target declared at this position of the graph.
    Texture(usize),
}

/// Names a render target, or a part of one.
#[derive(Debug, Clone, Copy, PartialEq, Eq, Structural, Hash)]
pub struct RenderTargetHandle {
    pub resource: TargetResource,
    /// `None` stands for every mip level of the target.
    pub mips: Option<MipRange>,
    /// `None` stands for the whole image.
    pub viewport: Option<ViewportRect>,
}

impl RenderTargetHandle {
    /// The handle to all of the target declared at position `index`.
    pub open spec fn texture(index: int) -> RenderTargetHandle {
        RenderTargetHandle { resource: TargetResource::Texture(index as usize), mips: None, viewport: None }
    }

    pub open spec fn with_mips(self, mips: MipRange) -> RenderTargetHandle {
        RenderTargetHandle { mips: Some(mips), ..self }
    }

    pub open spec fn with_viewport(self, viewport: ViewportRect) -> RenderTargetHandle {
        RenderTargetHandle { viewport: Some(viewport), ..self }
    }

    /// The same target, restricted to the mip levels `mips.start..mips.end`.
    pub fn set_mips(self, mips: core::ops::Range<u8>) -> (r: RenderTargetHandle)
        ensures
            r == self.with_mips(MipRange { start: mips.start, end: mips.end }),
    {
        RenderTargetHandle {
            resource: self.resource,
            mips: Some(MipRange { start: mips.start, end: mips.end }),
            viewport: self.viewport,
        }
    }

    /// The same target, restricted to the rectangle `viewport`.
    pub fn set_viewport(self, viewport: ViewportRect) -> (r: RenderTargetHandle)
        ensures
            r == self.with_viewport(viewport),
    {
        RenderTargetHandle { resource: self.resource, mips: self.mips, viewport: Some(viewport) }
    }
}

/// What a data slot of the graph carries from one pass to a later one.
#[derive(Debug, Clone, Copy, PartialEq, Eq, Structural, Hash)]
pub enum DataKind {
    Buffer,
    BindGroup,
    DrawCallSet,
    PreSkinningBuffers,
}

/// Names a data slot of the graph.
#[derive(Debug, Clone, Copy, PartialEq, Eq, Structural, Hash)]
pub struct DataHandle {
    pub index: usize,
    pub kind: DataKind,
}

impl DataHandle {
    /// The handle of the slot of kind `kind` declared at position `index`.
    pub open spec fn slot(index: int, kind: DataKind) -> DataHandle {
        DataHandle { index: index as usize, kind }
    }
}

/// Where one light's shadow map lies in the shadow atlas.
#[derive(Debug, Clone, Copy, PartialEq, Eq, Structural, Hash)]
pub struct ShadowMap {
    pub offset: UVec2,
    /// Length of a side of the square map.
    pub size: u32,
}

/// One shadow-casting light, as the scene evaluation describes it.
#[derive(Debug, Clone, Copy, PartialEq, Eq, Structural, Hash)]
pub struct ShadowDesc {
    pub map: ShadowMap,
}

/// What the evaluation of the scene hands to the frame.
#[derive(Debug, PartialEq, Eq)]
pub struct InstructionEvaluationOutput {
    pub shadows: Vec<ShadowDesc>,
    /// Extent of the shadow atlas.
    pub shadow_target_size: UVec2,
}

/// The camera a pass renders or culls for.
#[derive(Debug, Clone, Copy, PartialEq, Eq, Structural, Hash)]
pub enum CameraIndex {
    Viewport,
    Shadow(u32),
}

/// What a frame has declared so far: its render targets, its data slots and
/// its passes, each in the order of declaration.
#[verifier::ext_equal]
pub struct GraphView {
    pub targets: Seq<RenderTargetDescriptor>,
    pub data: Seq<DataKind>,
    pub nodes: Seq<Node>,
}

impl GraphView {
    pub open spec fn empty() -> GraphView {
        GraphView { targets: Seq::empty(), data: Seq::empty(), nodes: Seq::empty() }
    }

    pub open spec fn with_target(self, desc: RenderTargetDescriptor) -> GraphView {
        GraphView { targets: self.targets.push(desc), ..self }
    }

    pub open spec fn with_data(self, kind: DataKind) -> GraphView {
        GraphView { data: self.data.push(kind), ..self }
    }

    pub open spec fn with_node(self, node: Node) -> GraphView {
        GraphView { nodes: self.nodes.push(node), ..self }
    }

    pub open spec fn with_nodes(self, nodes: Seq<Node>) -> GraphView {
        GraphView { nodes: self.nodes + nodes, ..self }
    }

    /// The handle that the next declared render target gets.
    pub open spec fn next_target(self) -> RenderTargetHandle {
        RenderTargetHandle::texture(self.targets.len() as int)
    }

    /// The handle that the next declared data slot gets.
    pub open spec fn next_data(self, kind: DataKind) -> DataHandle {
        DataHandle::slot(self.data.len() as int, kind)
    }

    /// Both handles name declared targets of one resolution, as far as they
    /// name targets of this graph.
    pub open spec fn same_resolution(self, a: RenderTargetHandle, b: RenderTargetHandle) -> bool {
        match (a.resource, b.resource) {
            (TargetResource::Texture(i), TargetResource::Texture(j)) => {
                i < self.targets.len() && j < self.targets.len() ==> self.targets[i as int].resolution
                    == self.targets[j as int].resolution
            },
            _ => true,
        }
    }

    /// `handle` names the surface or a target that this graph has declared.
    pub open spec fn has_target(self, handle: RenderTargetHandle) -> bool {
        match handle.resource {
            TargetResource::Surface => true,
            TargetResource::Texture(index) => index < self.targets.len(),
        }
    }

    pub open spec fn has_optional_target(self, handle: Option<RenderTargetHandle>) -> bool {
        handle matches Some(h) ==> self.has_target(h)
    }

    /// `handle` names a data slot that this graph has declared, by its kind.
    pub open spec fn has_data(self, handle: DataHandle) -> bool {
        handle.index < self.data.len() && self.data[handle.index as int] == handle.kind
    }

    pub open spec fn has_optional_data(self, handle: Option<DataHandle>) -> bool {
        handle matches Some(h) ==> self.has_data(h)
    }

    /// Every handle that `node` names has been declared in this graph.
    pub open spec fn admits(self, node: Node) -> bool {
        match node {
            Node::Clear { color, resolve, depth, .. } => {
                &&& self.has_optional_target(color)
                &&& self.has_optional_target(resolve)
                &&& self.has_target(depth)
            },
            Node::FrameUniforms { shadow_uniform_bg, forward_uniform_bg, shadow_target, .. } => {
                &&& self.has_data(shadow_uniform_bg)
                &&& self.has_data(forward_uniform_bg)
                &&& self.has_target(shadow_target)
            },
            Node::Skinning { pre_skinning_buffers } => self.has_data(pre_skinning_buffers),
            Node::ObjectUniformUpload { pre_skinning_buffers, .. } => self.has_data(pre_skinning_buffers),
            Node::Culling { draw_calls, depth, .. } => {
                &&& self.has_data(draw_calls)
                &&& self.has_target(depth)
            },
            Node::Forward { whole_frame_uniform_bg, culling_output_handle, color, resolve, depth, .. } => {
                &&& self.has_data(whole_frame_uniform_bg)
                &&& self.has_optional_data(culling_output_handle)
                &&& self.has_optional_target(color)
                &&& self.has_optional_target(resolve)
                &&& self.has_target(depth)
            },
            Node::HiZ { depth, .. } => {
                &&& self.has_target(depth.single_sample_mipped)
                &&& self.has_optional_target(depth.multi_sample)
            },
            Node::Skybox { color, resolve, depth, forward_uniform_bg, .. } => {
                &&& self.has_target(color)
                &&& self.has_optional_target(resolve)
                &&& self.has_target(depth)
                &&& self.has_data(forward_uniform_bg)
            },
            Node::Tonemapping { src, dst, forward_uniform_bg } => {
                &&& self.has_target(src)
                &&& self.has_target(dst)
                &&& self.has_data(forward_uniform_bg)
            },
        }
    }
}

/// The declarations of one frame. Nothing is allocated and nothing runs:
/// the graph is the list of what the frame will need and do.
pub struct RenderGraph {
    pub targets: Vec<RenderTargetDescriptor>,
    pub data: Vec<DataKind>,
    pub nodes: Vec<Node>,
}

impl View for RenderGraph {
    type V = GraphView;

    open spec fn view(&self) -> GraphView {
        GraphView { targets: self.targets@, data: self.data@, nodes: self.nodes@ }
    }
}

impl RenderGraph {
    pub fn new() -> (graph: RenderGraph)
        ensures
            graph@ == GraphView::empty(),
    {
        RenderGraph { targets: Vec::new(), data: Vec::new(), nodes: Vec::new() }
    }

    /// Declares a render target and hands out the handle to all of it.
    pub fn add_render_target(&mut self, desc: RenderTargetDescriptor) -> (handle: RenderTargetHandle)
        ensures
            final(self)@ == old(self)@.with_target(desc),
            handle == old(self)@.next_target(),
            final(self)@.has_target(handle),
    {
        let index = self.targets.len();
        self.targets.push(desc);
        RenderTargetHandle { resource: TargetResource::Texture(index), mips: None, viewport: None }
    }

    /// The handle of the image that the frame ends up on.
    pub fn add_surface_texture(&mut self) -> (handle: RenderTargetHandle)
        ensures
            final(self)@ == old(self)@,
            handle == (RenderTargetHandle { resource: TargetResource::Surface, mips: None, viewport: None }),
    {
        RenderTargetHandle { resource: TargetResource::Surface, mips: None, viewport: None }
    }

    /// Declares a data slot of the given kind and hands out its handle.
    pub fn add_data(&mut self, kind: DataKind) -> (handle: DataHandle)
        ensures
            final(self)@ == old(self)@.with_data(kind),
            handle == old(self)@.next_data(kind),
            final(self)@.has_data(handle),
    {
        let index = self.data.len();
        self.data.push(kind);
        DataHandle { index, kind }
    }

    /// Declares a pass after all those declared before.
    pub fn add_node(&mut self, node: Node)
        requires
            old(self)@.admits(node),
        ensures
            final(self)@ == old(self)@.with_node(node),
    {
        self.nodes.push(node);
    }
}

} // verus!

//! What a frame declares, stated over plain values: the targets and data
//! slots, the handles that name them, and the passes in their order.

use vstd::prelude::*;

use crate::base::DepthTargets;
use crate::clear::clear_node;
use crate::graph::{
    CameraIndex, DataHandle, DataKind, GraphView, RenderTargetDescriptor, RenderTargetHandle, SampleCount,
    ShadowDesc, TextureFormat, TextureUsages, UVec2, Vec4Bits, ViewportRect,
};
use crate::node::{ForwardRoutine, Label, Node};

verus! {

/// The use of every target of a frame: drawn into, and sampled afterwards.
pub open spec fn attachment_and_binding() -> TextureUsages {
    TextureUsages { render_attachment: true, texture_binding: true }
}

/// The handles of a frame as plain values.
#[verifier::ext_equal]
pub struct StateView {
    pub pre_cull: DataHandle,
    pub shadow_cull: Seq<DataHandle>,
    pub cull: DataHandle,
    pub shadow_uniform_bg: DataHandle,
    pub forward_uniform_bg: DataHandle,
    pub shadow: RenderTargetHandle,
    pub color: RenderTargetHandle,
    pub resolve: Option<RenderTargetHandle>,
    pub depth: DepthTargets,
    pub pre_skinning_buffers: DataHandle,
}

pub open spec fn shadow_descriptor(size: UVec2) -> RenderTargetDescriptor {
    RenderTargetDescriptor {
        label: Some("shadow target"),
        resolution: size,
        depth: 1,
        mip_levels: Some(1),
        samples: SampleCount::One,
        format: TextureFormat::Depth32Float,
        usage: attachment_and_binding(),
    }
}

pub open spec fn color_descriptor(resolution: UVec2, samples: SampleCount) -> RenderTargetDescriptor {
    RenderTargetDescriptor {
        label: Some("hdr color"),
        resolution,
        depth: 1,
        mip_levels: Some(1),
        samples,
        format: TextureFormat::Rgba16Float,
        usage: attachment_and_binding(),
    }
}

pub open spec fn resolve_descriptor(resolution: UVec2) -> RenderTargetDescriptor {
    RenderTargetDescriptor {
        label: Some("hdr resolve"),
        resolution,
        depth: 1,
        mip_levels: Some(1),
        samples: SampleCount::One,
        format: TextureFormat::Rgba16Float,
        usage: attachment_and_binding(),
    }
}

/// The render targets that a frame declares, in order: the shadow atlas, the
/// colour image, its resolve target where `samples` needs one, the mipped
/// depth image, and the multisampled depth image where `samples` needs one.
pub open spec fn planned_targets(shadow_target_size: UVec2, resolution: UVec2, samples: SampleCount) -> Seq<
    RenderTargetDescriptor,
> {
    if samples.needs_resolve() {
        seq![
            shadow_descriptor(shadow_target_size),
            color_descriptor(resolution, samples),
            resolve_descriptor(resolution),
            DepthTargets::single_sample_descriptor(resolution),
            DepthTargets::multi_sample_descriptor(resolution, samples),
        ]
    } else {
        seq![
            shadow_descriptor(shadow_target_size),
            color_descriptor(resolution, samples),
            DepthTargets::single_sample_descriptor(resolution),
        ]
    }
}

/// The data slots that a frame with `shadow_count` shadow lights declares, in
/// order: the two sets of frame uniforms, the buffers of skinning, the
/// buffer that precedes culling, one set of draw calls for each shadow light
/// and one for the viewport.
pub open spec fn planned_data(shadow_count: nat) -> Seq<DataKind> {
    seq![DataKind::BindGroup, DataKind::BindGroup, DataKind::PreSkinningBuffers, DataKind::Buffer] + Seq::new(
        shadow_count + 1,
        |i: int| DataKind::DrawCallSet,
    )
}

/// `graph` after a frame has declared its targets and data in it.
pub open spec fn planned_graph(
    graph: GraphView,
    shadow_count: nat,
    shadow_target_size: UVec2,
    resolution: UVec2,
    samples: SampleCount,
) -> GraphView {
    GraphView {
        targets: graph.targets + planned_targets(shadow_target_size, resolution, samples),
        data: graph.data + planned_data(shadow_count),
        nodes: graph.nodes,
    }
}

impl StateView {
    /// The handles of what a frame declares in `graph`: each names the
    /// target or slot at its place after those that `graph` holds already.
    pub open spec fn planned(graph: GraphView, shadow_count: nat, samples: SampleCount) -> StateView {
        let t = graph.targets.len() as int;
        let d = graph.data.len() as int;
        let resolved: int = if samples.needs_resolve() {
            1
        } else {
            0
        };
        StateView {
            shadow_uniform_bg: DataHandle::slot(d, DataKind::BindGroup),
            forward_uniform_bg: DataHandle::slot(d + 1, DataKind::BindGroup),
            pre_skinning_buffers: DataHandle::slot(d + 2, DataKind::PreSkinningBuffers),
            pre_cull: DataHandle::slot(d + 3, DataKind::Buffer),
            shadow_cull: Seq::new(shadow_count, |i: int| DataHandle::slot(d + 4 + i, DataKind::DrawCallSet)),
            cull: DataHandle::slot(d + 4 + shadow_count, DataKind::DrawCallSet),
            shadow: RenderTargetHandle::texture(t),
            color: RenderTargetHandle::texture(t + 1),
            resolve: if samples.needs_resolve() {
                Some(RenderTargetHandle::texture(t + 2))
            } else {
                None
            },
            depth: DepthTargets {
                single_sample_mipped: RenderTargetHandle::texture(t + 2 + resolved),
                multi_sample: if samples.needs_resolve() {
                    Some(RenderTargetHandle::texture(t + 4))
                } else {
                    None
                },
            },
        }
    }

    /// Every handle names a target or a slot of `graph`, each slot of the
    /// kind that its role asks for, and the colour and depth images have one
    /// resolution.
    pub open spec fn valid_in(self, graph: GraphView) -> bool {
        &&& graph.has_data(self.pre_cull) && self.pre_cull.kind == DataKind::Buffer
        &&& forall|i: int|
            0 <= i < self.shadow_cull.len() ==> graph.has_data(#[trigger] self.shadow_cull[i])
                && self.shadow_cull[i].kind == DataKind::DrawCallSet
        &&& graph.has_data(self.cull) && self.cull.kind == DataKind::DrawCallSet
        &&& graph.has_data(self.shadow_uniform_bg) && self.shadow_uniform_bg.kind == DataKind::BindGroup
        &&& graph.has_data(self.forward_uniform_bg) && self.forward_uniform_bg.kind == DataKind::BindGroup
        &&& graph.has_data(self.pre_skinning_buffers) && self.pre_skinning_buffers.kind
            == DataKind::PreSkinningBuffers
        &&& graph.has_target(self.shadow)
        &&& graph.has_target(self.color)
        &&& graph.has_optional_target(self.resolve)
        &&& self.depth.valid_in(graph)
        &&& graph.same_resolution(self.color, self.depth.single_sample_mipped)
        &&& self.depth.multi_sample matches Some(multi_sample) ==> graph.same_resolution(
            self.color,
            multi_sample,
        )
        &&& self.resolve matches Some(resolve) ==> graph.same_resolution(self.color, resolve)
    }

    /// There is a resolve target and a multisampled depth image exactly
    /// where `samples` needs a resolve.
    pub open spec fn wired_for(self, samples: SampleCount) -> bool {
        &&& self.resolve.is_some() == samples.needs_resolve()
        &&& self.depth.multi_sample.is_some() == samples.needs_resolve()
    }

    /// The pass that clears the shadow atlas: depth only, to zero.
    pub open spec fn clear_shadow_node(self) -> Node {
        clear_node(None, None, self.shadow, Vec4Bits { x: 0, y: 0, z: 0, w: 0 }, 0)
    }

    pub open spec fn frame_uniforms_node(self, ambient: Vec4Bits, resolution: UVec2) -> Node {
        Node::FrameUniforms {
            shadow_uniform_bg: self.shadow_uniform_bg,
            forward_uniform_bg: self.forward_uniform_bg,
            shadow_target: self.shadow,
            ambient,
            resolution,
        }
    }

    /// The pass that skins, and fills the buffers of skinning.
    pub open spec fn skinning_node(self) -> Node {
        Node::Skinning { pre_skinning_buffers: self.pre_skinning_buffers }
    }

    /// The upload of the object uniforms for the camera of shadow light `i`.
    pub open spec fn shadow_upload_node(self, shadows: Seq<ShadowDesc>, i: int) -> Node {
        Node::ObjectUniformUpload {
            pre_skinning_buffers: self.pre_skinning_buffers,
            camera: CameraIndex::Shadow(i as u32),
            resolution: UVec2 { x: shadows[i].map.size, y: shadows[i].map.size },
            samples: SampleCount::One,
            label: Label::indexed("Shadow Culling S", i as u32),
        }
    }

    /// One upload for each shadow light, in the order of the lights.
    pub open spec fn shadow_upload_nodes(self, shadows: Seq<ShadowDesc>) -> Seq<Node> {
        Seq::new(shadows.len(), |i: int| self.shadow_upload_node(shadows, i))
    }

    /// The culling for shadow light `i`. It tests against the shadow atlas,
    /// which holds no depth yet.
    pub open spec fn shadow_culling_node(self, i: int) -> Node {
        Node::Culling {
            draw_calls: self.shadow_cull[i],
            depth: self.shadow,
            camera: CameraIndex::Shadow(i as u32),
            label: Label::indexed("Shadow Culling S", i as u32),
        }
    }

    /// One culling for each set of shadow draw calls, in their order.
    pub open spec fn shadow_culling_nodes(self) -> Seq<Node> {
        Seq::new(self.shadow_cull.len(), |i: int| self.shadow_culling_node(i))
    }

    /// The number of lights that have both a set of draw calls and a
    /// description.
    pub open spec fn shadow_lights(self, shadows: Seq<ShadowDesc>) -> nat {
        if self.shadow_cull.len() <= shadows.len() {
            self.shadow_cull.len()
        } else {
            shadows.len()
        }
    }

    /// The `k`-th shadow pass. Light `k / 2` is drawn by passes `k` and
    /// `k + 1` for even `k`: first its opaque, then its cutout materials,
    /// both into the light's rectangle of the atlas.
    pub open spec fn shadow_rendering_node(self, shadows: Seq<ShadowDesc>, k: int) -> Node {
        let i = k / 2;
        Node::Forward {
            routine: if k % 2 == 0 {
                ForwardRoutine::OpaqueDepth
            } else {
                ForwardRoutine::CutoutDepth
            },
            whole_frame_uniform_bg: self.shadow_uniform_bg,
            culling_output_handle: Some(self.shadow_cull[i]),
            label: Label::indexed("pbr shadow renderering S", i as u32),
            samples: SampleCount::One,
            camera: CameraIndex::Shadow(i as u32),
            color: None,
            resolve: None,
            depth: self.shadow.with_viewport(
                ViewportRect {
                    offset: shadows[i].map.offset,
                    size: UVec2 { x: shadows[i].map.size, y: shadows[i].map.size },
                },
            ),
        }
    }

    /// Two shadow passes for each light, in the order of the lights.
    pub open spec fn shadow_rendering_nodes(self, shadows: Seq<ShadowDesc>) -> Seq<Node> {
        Seq::new(2 * self.shadow_lights(shadows), |k: int| self.shadow_rendering_node(shadows, k))
    }

    /// The pass that clears the colour image, its resolve target and the
    /// depth image that is drawn into.
    pub open spec fn clear_node(self, clear_color: Vec4Bits) -> Node {
        clear_node(Some(self.color), self.resolve, self.depth.rendering_target(), clear_color, 0)
    }

    pub open spec fn object_uniform_upload_node(self, resolution: UVec2, samples: SampleCount) -> Node {
        Node::ObjectUniformUpload {
            pre_skinning_buffers: self.pre_skinning_buffers,
            camera: CameraIndex::Viewport,
            resolution,
            samples,
            label: Label::plain("Uniform Bake"),
        }
    }

    /// A pass that draws one class of materials for the viewport camera.
    pub open spec fn forward_node(
        self,
        routine: ForwardRoutine,
        culling_output_handle: Option<DataHandle>,
        label: Label,
        samples: SampleCount,
    ) -> Node {
        Node::Forward {
            routine,
            whole_frame_uniform_bg: self.forward_uniform_bg,
            culling_output_handle,
            label,
            samples,
            camera: CameraIndex::Viewport,
            color: Some(self.color),
            resolve: self.resolve,
            depth: self.depth.rendering_target(),
        }
    }

    /// The first pass over the opaque and cutout materials. It is given no
    /// draw calls of this frame: it draws what was found visible in the frame
    /// before, and nothing in the first frame, where all that is visible
    /// falls to the second pass.
    pub open spec fn predicted_nodes(self, samples: SampleCount) -> Seq<Node> {
        seq![
            self.forward_node(ForwardRoutine::Opaque, None, Label::plain("PBR Forward Pass 1"), samples),
            self.forward_node(ForwardRoutine::Cutout, None, Label::plain("PBR Forward Pass 1"), samples),
        ]
    }

    pub open spec fn hi_z_node(self, resolution: UVec2) -> Node {
        Node::HiZ { depth: self.depth, resolution }
    }

    /// The culling for the viewport camera, against the resolved depth image
    /// and its pyramid.
    pub open spec fn culling_node(self) -> Node {
        Node::Culling {
            draw_calls: self.cull,
            depth: self.depth.single_sample_mipped,
            camera: CameraIndex::Viewport,
            label: Label::plain("Primary Culling"),
        }
    }

    /// The second pass over the opaque and cutout materials, given the draw
    /// calls that this frame's culling found.
    pub open spec fn residual_nodes(self, samples: SampleCount) -> Seq<Node> {
        seq![
            self.forward_node(ForwardRoutine::Opaque, Some(self.cull), Label::plain("PBR Forward Pass 2"), samples),
            self.forward_node(ForwardRoutine::Cutout, Some(self.cull), Label::plain("PBR Forward Pass 2"), samples),
        ]
    }

    pub open spec fn skybox_node(self, samples: SampleCount) -> Node {
        Node::Skybox {
            color: self.color,
            resolve: self.resolve,
            depth: self.depth.rendering_target(),
            forward_uniform_bg: self.forward_uniform_bg,
            samples,
        }
    }

    /// The skybox pass where a skybox is configured, else nothing.
    pub open spec fn skybox_nodes(self, skybox: bool, samples: SampleCount) -> Seq<Node> {
        if skybox {
            seq![self.skybox_node(samples)]
        } else {
            Seq::empty()
        }
    }

    pub open spec fn transparent_node(self, samples: SampleCount) -> Node {
        self.forward_node(ForwardRoutine::Blend, Some(self.cull), Label::plain("PBR Forward"), samples)
    }

    /// The image that holds the finished colour: the resolve target where
    /// there is one, else the colour image itself.
    pub open spec fn resolved_color(self) -> RenderTargetHandle {
        match self.resolve {
            Some(resolve) => resolve,
            None => self.color,
        }
    }

    pub open spec fn tonemapping_node(self, target: RenderTargetHandle) -> Node {
        Node::Tonemapping { src: self.resolved_color(), dst: target, forward_uniform_bg: self.forward_uniform_bg }
    }
}

/// What one frame is declared from.
pub struct Frame {
    /// The shadow-casting lights.
    pub shadows: Seq<ShadowDesc>,
    /// Extent of the shadow atlas.
    pub shadow_target_size: UVec2,
    /// Whether a skybox is configured.
    pub skybox: bool,
    /// The image that the frame ends up on.
    pub target_texture: RenderTargetHandle,
    pub resolution: UVec2,
    pub samples: SampleCount,
    pub ambient: Vec4Bits,
    pub clear_color: Vec4Bits,
}

impl Frame {
    /// The handles of the frame, declared in `graph`.
    pub open spec fn state(self, graph: GraphView) -> StateView {
        StateView::planned(graph, self.shadows.len(), self.samples)
    }

    /// `graph` with the targets and data of the frame.
    pub open spec fn declared(self, graph: GraphView) -> GraphView {
        planned_graph(graph, self.shadows.len(), self.shadow_target_size, self.resolution, self.samples)
    }

    /// The passes up to the last shadow pass: the clear of the atlas, the
    /// frame uniforms, skinning, then for all lights the uploads, for all
    /// lights the culling, and for all lights the two shadow passes.
    pub open spec fn shadow_stage(self, graph: GraphView) -> Seq<Node> {
        let state = self.state(graph);
        seq![
            state.clear_shadow_node(),
            state.frame_uniforms_node(self.ambient, self.resolution),
            state.skinning_node(),
        ] + state.shadow_upload_nodes(self.shadows) + state.shadow_culling_nodes()
            + state.shadow_rendering_nodes(self.shadows)
    }

    /// The passes of the viewport: clear, upload, the predicted pass, the
    /// depth pyramid, culling, the residual pass, the skybox where there is
    /// one, the blended materials, and tonemapping.
    pub open spec fn viewport_stage(self, graph: GraphView) -> Seq<Node> {
        let state = self.state(graph);
        seq![
            state.clear_node(self.clear_color),
            state.object_uniform_upload_node(self.resolution, self.samples),
        ] + state.predicted_nodes(self.samples) + seq![state.hi_z_node(self.resolution), state.culling_node()]
            + state.residual_nodes(self.samples) + state.skybox_nodes(self.skybox, self.samples) + seq![
            state.transparent_node(self.samples),
            state.tonemapping_node(self.target_texture),
        ]
    }

    /// Every pass of the frame, in the order of declaration.
    pub open spec fn nodes(self, graph: GraphView) -> Seq<Node> {
        self.shadow_stage(graph) + self.viewport_stage(graph)
    }

    /// `graph` after the whole frame has been declared in it.
    pub open spec fn graph(self, graph: GraphView) -> GraphView {
        self.declared(graph).with_nodes(self.nodes(graph))
    }
}

} // verus!

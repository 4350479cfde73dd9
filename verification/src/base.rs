//! The stages of a frame and the state that they share.

use vstd::prelude::*;

use crate::clear::add_clear_to_graph;
use crate::graph::{
    resolve_needed, CameraIndex, DataHandle, DataKind, GraphView, InstructionEvaluationOutput, MipRange,
    RenderGraph, RenderTargetDescriptor, RenderTargetHandle, SampleCount, ShadowDesc, TextureFormat,
    TextureUsages, UVec2, Vec4Bits, ViewportRect,
};
use crate::node::{ForwardRoutine, Label, Node};
use crate::plan::{attachment_and_binding, planned_data, planned_graph, planned_targets, Frame, StateView};

verus! {

/// The depth images of the viewport camera.
#[derive(Debug, Copy, Clone, PartialEq, Eq, Structural, Hash)]
pub struct DepthTargets {
    /// Single-sample depth with a full mip chain: level 0 holds the depth
    /// of the frame, the levels above it the depth pyramid.
    pub single_sample_mipped: RenderTargetHandle,
    /// The image that is drawn into when the frame is multisampled.
    pub multi_sample: Option<RenderTargetHandle>,
}

impl DepthTargets {
    pub open spec fn single_sample_descriptor(resolution: UVec2) -> RenderTargetDescriptor {
        RenderTargetDescriptor {
            label: Some("hdr depth"),
            resolution,
            depth: 1,
            mip_levels: None,
            samples: SampleCount::One,
            format: TextureFormat::Depth32Float,
            usage: attachment_and_binding(),
        }
    }

    pub open spec fn multi_sample_descriptor(resolution: UVec2, samples: SampleCount) -> RenderTargetDescriptor {
        RenderTargetDescriptor {
            label: Some("hdr depth multisampled"),
            resolution,
            depth: 1,
            mip_levels: Some(1),
            samples,
            format: TextureFormat::Depth32Float,
            usage: attachment_and_binding(),
        }
    }

    /// The graph after the depth images have been declared in `graph`.
    pub open spec fn declared(graph: GraphView, resolution: UVec2, samples: SampleCount) -> GraphView {
        let single = graph.with_target(Self::single_sample_descriptor(resolution));
        if samples.needs_resolve() {
            single.with_target(Self::multi_sample_descriptor(resolution, samples))
        } else {
            single
        }
    }

    /// The handles of the depth images declared in `graph`.
    pub open spec fn handles(graph: GraphView, resolution: UVec2, samples: SampleCount) -> DepthTargets {
        let single = graph.with_target(Self::single_sample_descriptor(resolution));
        DepthTargets {
            single_sample_mipped: graph.next_target(),
            multi_sample: if samples.needs_resolve() {
                Some(single.next_target())
            } else {
                None
            },
        }
    }

    /// Declares the depth images of a frame: the mipped single-sample image
    /// always, the multisampled image where `samples` needs a resolve.
    pub fn new(graph: &mut RenderGraph, resolution: UVec2, samples: SampleCount) -> (depth: DepthTargets)
        requires
            resolution.x > 0,
            resolution.y > 0,
        ensures
            final(graph)@ == Self::declared(old(graph)@, resolution, samples),
            depth == Self::handles(old(graph)@, resolution, samples),
            depth.multi_sample.is_some() == samples.needs_resolve(),
            depth.valid_in(final(graph)@),
    {
        let usage = TextureUsages { render_attachment: true, texture_binding: true };
        let single_sample_mipped = graph.add_render_target(
            RenderTargetDescriptor {
                label: Some("hdr depth"),
                resolution,
                depth: 1,
                mip_levels: None,
                samples: SampleCount::One,
                format: TextureFormat::Depth32Float,
                usage,
            },
        );
        let multi_sample = if resolve_needed(samples) {
            Some(
                graph.add_render_target(
                    RenderTargetDescriptor {
                        label: Some("hdr depth multisampled"),
                        resolution,
                        depth: 1,
                        mip_levels: Some(1),
                        samples,
                        format: TextureFormat::Depth32Float,
                        usage,
                    },
                ),
            )
        } else {
            None
        };
        DepthTargets { single_sample_mipped, multi_sample }
    }

    /// Both images have been declared in `graph`.
    pub open spec fn valid_in(self, graph: GraphView) -> bool {
        &&& graph.has_target(self.single_sample_mipped)
        &&& graph.has_optional_target(self.multi_sample)
    }

    /// The image that passes draw depth into.
    pub open spec fn spec_rendering_target(&self) -> RenderTargetHandle {
        match self.multi_sample {
            Some(multi_sample) => multi_sample,
            None => self.single_sample_mipped.with_mips(MipRange { start: 0, end: 1 }),
        }
    }

    /// The image that passes draw depth into: the multisampled image where
    /// there is one, else level 0 of the single-sample image, whose higher
    /// levels belong to the depth pyramid.
    #[verifier::when_used_as_spec(spec_rendering_target)]
    pub fn rendering_target(&self) -> (target: RenderTargetHandle)
        ensures
            target == self.spec_rendering_target(),
    {
        match self.multi_sample {
            Some(multi_sample) => multi_sample,
            None => self.single_sample_mipped.set_mips(0..1),
        }
    }
}

/// The handles of a frame: every target and every data slot that its passes
/// share.
///
/// All fields are public, and a caller may point any of them elsewhere before
/// the passes are declared; the stages ask only that the handles are
/// [`valid_in`](StateView::valid_in) the graph they are used with.
#[derive(Debug, PartialEq, Eq)]
pub struct BaseRenderGraphIntermediateState {
    pub pre_cull: DataHandle,
    /// The draw calls that culling finds for each shadow light.
    pub shadow_cull: Vec<DataHandle>,
    /// The draw calls that culling finds for the viewport camera.
    pub cull: DataHandle,
    pub shadow_uniform_bg: DataHandle,
    pub forward_uniform_bg: DataHandle,
    /// The shadow atlas.
    pub shadow: RenderTargetHandle,
    pub color: RenderTargetHandle,
    pub resolve: Option<RenderTargetHandle>,
    pub depth: DepthTargets,
    pub pre_skinning_buffers: DataHandle,
}

impl View for BaseRenderGraphIntermediateState {
    type V = StateView;

    open spec fn view(&self) -> StateView {
        StateView {
            pre_cull: self.pre_cull,
            shadow_cull: self.shadow_cull@,
            cull: self.cull,
            shadow_uniform_bg: self.shadow_uniform_bg,
            forward_uniform_bg: self.forward_uniform_bg,
            shadow: self.shadow,
            color: self.color,
            resolve: self.resolve,
            depth: self.depth,
            pre_skinning_buffers: self.pre_skinning_buffers,
        }
    }
}

impl BaseRenderGraphIntermediateState {
    /// Declares every render target and every data slot of a frame, and
    /// returns their handles. No pass is declared.
    pub fn new(
        graph: &mut RenderGraph,
        eval_output: &InstructionEvaluationOutput,
        resolution: UVec2,
        samples: SampleCount,
    ) -> (state: Self)
        requires
            resolution.x > 0,
            resolution.y > 0,
        ensures
            final(graph)@ == planned_graph(
                old(graph)@,
                eval_output.shadows@.len(),
                eval_output.shadow_target_size,
                resolution,
                samples,
            ),
            state@ == StateView::planned(old(graph)@, eval_output.shadows@.len(), samples),
            state.shadow_cull@.len() == eval_output.shadows@.len(),
            state.resolve.is_some() == samples.needs_resolve(),
            state.depth.multi_sample.is_some() == samples.needs_resolve(),
            state@.valid_in(final(graph)@),
            state@.wired_for(samples),
            final(graph)@.targets.len() <= usize::MAX,
            final(graph)@.data.len() <= usize::MAX,
    {
        let ghost before = graph@;
        let shadow_count = eval_output.shadows.len();
        let usage = TextureUsages { render_attachment: true, texture_binding: true };

        let shadow_uniform_bg = graph.add_data(DataKind::BindGroup);
        let forward_uniform_bg = graph.add_data(DataKind::BindGroup);

        let shadow = graph.add_render_target(
            RenderTargetDescriptor {
                label: Some("shadow target"),
                resolution: eval_output.shadow_target_size,
                depth: 1,
                mip_levels: Some(1),
                samples: SampleCount::One,
                format: TextureFormat::Depth32Float,
                usage,
            },
        );
        let color = graph.add_render_target(
            RenderTargetDescriptor {
                label: Some("hdr color"),
                resolution,
                depth: 1,
                mip_levels: Some(1),
                samples,
                format: TextureFormat::Rgba16Float,
                usage,
            },
        );
        let resolve = if resolve_needed(samples) {
            Some(
                graph.add_render_target(
                    RenderTargetDescriptor {
                        label: Some("hdr resolve"),
                        resolution,
                        depth: 1,
                        mip_levels: Some(1),
                        samples: SampleCount::One,
                        format: TextureFormat::Rgba16Float,
                        usage,
                    },
                ),
            )
        } else {
            None
        };
        let depth = DepthTargets::new(graph, resolution, samples);

        let pre_skinning_buffers = graph.add_data(DataKind::PreSkinningBuffers);
        let pre_cull = graph.add_data(DataKind::Buffer);

        let ghost declared = graph@;
        assert(declared.targets =~= before.targets + planned_targets(
            eval_output.shadow_target_size,
            resolution,
            samples,
        ));
        let mut shadow_cull: Vec<DataHandle> = Vec::with_capacity(shadow_count);
        let mut i: usize = 0;
        while i < shadow_count
            invariant
                i <= shadow_count,
                graph@.targets == declared.targets,
                graph@.nodes == declared.nodes,
                graph@.data =~= declared.data + Seq::new(i as nat, |k: int| DataKind::DrawCallSet),
                shadow_cull@ =~= Seq::new(
                    i as nat,
                    |k: int| DataHandle::slot(declared.data.len() + k, DataKind::DrawCallSet),
                ),
            decreases shadow_count - i,
        {
            let handle = graph.add_data(DataKind::DrawCallSet);
            shadow_cull.push(handle);
            i += 1;
        }
        let cull = graph.add_data(DataKind::DrawCallSet);

        assert(graph@.data =~= before.data + planned_data(shadow_count as nat));
        let state = Self {
            pre_cull,
            shadow_cull,
            cull,
            shadow_uniform_bg,
            forward_uniform_bg,
            shadow,
            color,
            resolve,
            depth,
            pre_skinning_buffers,
        };
        proof {
            let after = graph@;
            let targets = planned_targets(eval_output.shadow_target_size, resolution, samples);
            let data = planned_data(shadow_count as nat);
            let t = before.targets.len() as int;
            let d = before.data.len() as int;
            assert(after.data.len() == graph.data.len() <= usize::MAX);
            assert(after.targets.len() == graph.targets.len() <= usize::MAX);
            assert(state@.shadow_cull =~= StateView::planned(before, shadow_count as nat, samples).shadow_cull);
            assert(after.targets[t + 1] == targets[1]);
            assert(after.targets[t + 2] == targets[2]);
            if samples.needs_resolve() {
                assert(after.targets[t + 3] == targets[3]);
                assert(after.targets[t + 4] == targets[4]);
            }
            assert forall|i: int| 0 <= i < state@.shadow_cull.len() implies after.has_data(
                #[trigger] state@.shadow_cull[i],
            ) by {
                let draw_calls = Seq::new((shadow_count + 1) as nat, |k: int| DataKind::DrawCallSet);
                assert(state@.shadow_cull[i].index == d + 4 + i);
                assert(data[4 + i] == draw_calls[i]);
                assert(after.data[d + 4 + i] == data[4 + i]);
            }
        }
        state
    }

    /// Declares the pass that builds the uniforms of the frame.
    pub fn create_frame_uniforms(&self, graph: &mut RenderGraph, ambient: Vec4Bits, resolution: UVec2)
        requires
            self@.valid_in(old(graph)@),
            resolution.x > 0,
            resolution.y > 0,
        ensures
            final(graph)@ == old(graph)@.with_node(self@.frame_uniforms_node(ambient, resolution)),
    {
        graph.add_node(
            Node::FrameUniforms {
                shadow_uniform_bg: self.shadow_uniform_bg,
                forward_uniform_bg: self.forward_uniform_bg,
                shadow_target: self.shadow,
                ambient,
                resolution,
            },
        );
    }

    /// Declares, for each shadow light, the upload of the object uniforms
    /// for its camera.
    pub fn shadow_object_uniform_upload(&self, graph: &mut RenderGraph, eval_output: &InstructionEvaluationOutput)
        requires
            self@.valid_in(old(graph)@),
            eval_output.shadows@.len() <= u32::MAX,
        ensures
            final(graph)@ == old(graph)@.with_nodes(self@.shadow_upload_nodes(eval_output.shadows@)),
    {
        let ghost before = graph@;
        let count = eval_output.shadows.len();
        let mut shadow_index: usize = 0;
        while shadow_index < count
            invariant
                shadow_index <= count == eval_output.shadows@.len() <= u32::MAX,
                self@.valid_in(before),
                graph@.targets == before.targets,
                graph@.data == before.data,
                graph@.nodes =~= before.nodes + Seq::new(
                    shadow_index as nat,
                    |i: int| self@.shadow_upload_node(eval_output.shadows@, i),
                ),
            decreases count - shadow_index,
        {
            let shadow = eval_output.shadows[shadow_index];
            graph.add_node(
                Node::ObjectUniformUpload {
                    pre_skinning_buffers: self.pre_skinning_buffers,
                    camera: CameraIndex::Shadow(shadow_index as u32),
                    resolution: UVec2::splat(shadow.map.size),
                    samples: SampleCount::One,
                    label: Label { prefix: "Shadow Culling S", index: Some(shadow_index as u32) },
                },
            );
            shadow_index += 1;
        }
        assert(graph@ =~= before.with_nodes(self@.shadow_upload_nodes(eval_output.shadows@)));
    }

    /// Declares the culling for each shadow light.
    pub fn pbr_shadow_culling(&self, graph: &mut RenderGraph)
        requires
            self@.valid_in(old(graph)@),
            self.shadow_cull@.len() <= u32::MAX,
        ensures
            final(graph)@ == old(graph)@.with_nodes(self@.shadow_culling_nodes()),
    {
        let ghost before = graph@;
        let count = self.shadow_cull.len();
        let mut shadow_index: usize = 0;
        while shadow_index < count
            invariant
                shadow_index <= count == self.shadow_cull@.len() <= u32::MAX,
                self@.valid_in(before),
                graph@.targets == before.targets,
                graph@.data == before.data,
                graph@.nodes =~= before.nodes + Seq::new(
                    shadow_index as nat,
                    |i: int| self@.shadow_culling_node(i),
                ),
            decreases count - shadow_index,
        {
            let shadow_culled = self.shadow_cull[shadow_index];
            assert(before.has_data(self@.shadow_cull[shadow_index as int]));
            graph.add_node(
                Node::Culling {
                    draw_calls: shadow_culled,
                    depth: self.shadow,
                    camera: CameraIndex::Shadow(shadow_index as u32),
                    label: Label { prefix: "Shadow Culling S", index: Some(shadow_index as u32) },
                },
            );
            shadow_index += 1;
        }
        assert(graph@ =~= before.with_nodes(self@.shadow_culling_nodes()));
    }

    /// Declares the pass that skins on the GPU and fills the buffers of
    /// skinning, which the uploads of object uniforms read.
    pub fn skinning(&self, graph: &mut RenderGraph)
        requires
            self@.valid_in(old(graph)@),
        ensures
            final(graph)@ == old(graph)@.with_node(self@.skinning_node()),
    {
        graph.add_node(Node::Skinning { pre_skinning_buffers: self.pre_skinning_buffers });
    }

    /// Declares the upload of the object uniforms for the viewport camera.
    pub fn object_uniform_upload(&self, graph: &mut RenderGraph, resolution: UVec2, samples: SampleCount)
        requires
            self@.valid_in(old(graph)@),
            resolution.x > 0,
            resolution.y > 0,
        ensures
            final(graph)@ == old(graph)@.with_node(self@.object_uniform_upload_node(resolution, samples)),
    {
        graph.add_node(
            Node::ObjectUniformUpload {
                pre_skinning_buffers: self.pre_skinning_buffers,
                camera: CameraIndex::Viewport,
                resolution,
                samples,
                label: Label { prefix: "Uniform Bake", index: None },
            },
        );
    }

    /// Declares the culling for the viewport camera.
    pub fn pbr_culling(&self, graph: &mut RenderGraph)
        requires
            self@.valid_in(old(graph)@),
        ensures
            final(graph)@ == old(graph)@.with_node(self@.culling_node()),
    {
        graph.add_node(
            Node::Culling {
                draw_calls: self.cull,
                depth: self.depth.single_sample_mipped,
                camera: CameraIndex::Viewport,
                label: Label { prefix: "Primary Culling", index: None },
            },
        );
    }

    /// Declares the pass that clears the shadow atlas.
    pub fn clear_shadow(&self, graph: &mut RenderGraph)
        requires
            self@.valid_in(old(graph)@),
        ensures
            final(graph)@ == old(graph)@.with_node(self@.clear_shadow_node()),
    {
        add_clear_to_graph(graph, None, None, self.shadow, Vec4Bits { x: 0, y: 0, z: 0, w: 0 }, 0);
    }

    /// Declares the pass that clears the colour and depth images of the
    /// viewport.
    pub fn clear(&self, graph: &mut RenderGraph, clear_color: Vec4Bits)
        requires
            self@.valid_in(old(graph)@),
        ensures
            final(graph)@ == old(graph)@.with_node(self@.clear_node(clear_color)),
    {
        add_clear_to_graph(graph, Some(self.color), self.resolve, self.depth.rendering_target(), clear_color, 0);
    }

    /// Declares the shadow passes: for each light that has draw calls and a
    /// description, one for its opaque and one for its cutout materials.
    pub fn pbr_shadow_rendering(&self, graph: &mut RenderGraph, shadows: &[ShadowDesc])
        requires
            self@.valid_in(old(graph)@),
            self@.shadow_lights(shadows@) <= u32::MAX,
        ensures
            final(graph)@ == old(graph)@.with_nodes(self@.shadow_rendering_nodes(shadows@)),
    {
        let ghost before = graph@;
        let count = if self.shadow_cull.len() <= shadows.len() {
            self.shadow_cull.len()
        } else {
            shadows.len()
        };
        let mut shadow_index: usize = 0;
        while shadow_index < count
            invariant
                shadow_index <= count == self@.shadow_lights(shadows@) <= u32::MAX,
                self@.valid_in(before),
                graph@.targets == before.targets,
                graph@.data == before.data,
                graph@.nodes =~= before.nodes + Seq::new(
                    2 * shadow_index as nat,
                    |k: int| self@.shadow_rendering_node(shadows@, k),
                ),
            decreases count - shadow_index,
        {
            let shadow_cull = self.shadow_cull[shadow_index];
            let desc = shadows[shadow_index];
            assert(before.has_data(self@.shadow_cull[shadow_index as int]));
            let depth = self.shadow.set_viewport(ViewportRect::new(desc.map.offset, UVec2::splat(desc.map.size)));
            let label = Label { prefix: "pbr shadow renderering S", index: Some(shadow_index as u32) };
            graph.add_node(
                Node::Forward {
                    routine: ForwardRoutine::OpaqueDepth,
                    whole_frame_uniform_bg: self.shadow_uniform_bg,
                    culling_output_handle: Some(shadow_cull),
                    label,
                    samples: SampleCount::One,
                    camera: CameraIndex::Shadow(shadow_index as u32),
                    color: None,
                    resolve: None,
                    depth,
                },
            );
            graph.add_node(
                Node::Forward {
                    routine: ForwardRoutine::CutoutDepth,
                    whole_frame_uniform_bg: self.shadow_uniform_bg,
                    culling_output_handle: Some(shadow_cull),
                    label,
                    samples: SampleCount::One,
                    camera: CameraIndex::Shadow(shadow_index as u32),
                    color: None,
                    resolve: None,
                    depth,
                },
            );
            shadow_index += 1;
        }
        assert(graph@ =~= before.with_nodes(self@.shadow_rendering_nodes(shadows@)));
    }

    /// Declares the skybox pass, where a skybox is configured.
    pub fn skybox(&self, graph: &mut RenderGraph, skybox: bool, samples: SampleCount)
        requires
            self@.valid_in(old(graph)@),
            self@.wired_for(samples),
        ensures
            final(graph)@ == old(graph)@.with_nodes(self@.skybox_nodes(skybox, samples)),
    {
        if skybox {
            graph.add_node(
                Node::Skybox {
                    color: self.color,
                    resolve: self.resolve,
                    depth: self.depth.rendering_target(),
                    forward_uniform_bg: self.forward_uniform_bg,
                    samples,
                },
            );
        }
        assert(graph@ =~= old(graph)@.with_nodes(self@.skybox_nodes(skybox, samples)));
    }

    /// A pass that draws one class of materials for the viewport camera.
    fn forward(
        &self,
        routine: ForwardRoutine,
        culling_output_handle: Option<DataHandle>,
        label: Label,
        samples: SampleCount,
    ) -> (node: Node)
        ensures
            node == self@.forward_node(routine, culling_output_handle, label, samples),
    {
        Node::Forward {
            routine,
            whole_frame_uniform_bg: self.forward_uniform_bg,
            culling_output_handle,
            label,
            samples,
            camera: CameraIndex::Viewport,
            color: Some(self.color),
            resolve: self.resolve,
            depth: self.depth.rendering_target(),
        }
    }

    /// Declares the first pass over the opaque and cutout materials, which
    /// draws what the frame before found visible.
    ///
    /// The pass is handed no draw calls of this frame. In the first frame
    /// there is no frame before: the pass is declared all the same, finds
    /// nothing to draw, and everything visible is drawn by the second pass.
    pub fn pbr_render_opaque_predicted_triangles(&self, graph: &mut RenderGraph, samples: SampleCount)
        requires
            self@.valid_in(old(graph)@),
            self@.wired_for(samples),
        ensures
            final(graph)@ == old(graph)@.with_nodes(self@.predicted_nodes(samples)),
    {
        let label = Label { prefix: "PBR Forward Pass 1", index: None };
        graph.add_node(self.forward(ForwardRoutine::Opaque, None, label, samples));
        graph.add_node(self.forward(ForwardRoutine::Cutout, None, label, samples));
        assert(graph@ =~= old(graph)@.with_nodes(self@.predicted_nodes(samples)));
    }

    /// Declares the second pass over the opaque and cutout materials, which
    /// draws what this frame's culling found and the first pass left out.
    pub fn pbr_render_opaque_residual_triangles(&self, graph: &mut RenderGraph, samples: SampleCount)
        requires
            self@.valid_in(old(graph)@),
            self@.wired_for(samples),
        ensures
            final(graph)@ == old(graph)@.with_nodes(self@.residual_nodes(samples)),
    {
        let label = Label { prefix: "PBR Forward Pass 2", index: None };
        graph.add_node(self.forward(ForwardRoutine::Opaque, Some(self.cull), label, samples));
        graph.add_node(self.forward(ForwardRoutine::Cutout, Some(self.cull), label, samples));
        assert(graph@ =~= old(graph)@.with_nodes(self@.residual_nodes(samples)));
    }

    /// Declares the pass over the blended materials. They are drawn from
    /// this frame's culling only, never from the frame before.
    pub fn pbr_forward_rendering_transparent(&self, graph: &mut RenderGraph, samples: SampleCount)
        requires
            self@.valid_in(old(graph)@),
            self@.wired_for(samples),
        ensures
            final(graph)@ == old(graph)@.with_node(self@.transparent_node(samples)),
    {
        let label = Label { prefix: "PBR Forward", index: None };
        graph.add_node(self.forward(ForwardRoutine::Blend, Some(self.cull), label, samples));
    }

    /// Declares the pass that builds the depth pyramid.
    pub fn hi_z(&self, graph: &mut RenderGraph, resolution: UVec2)
        requires
            self@.valid_in(old(graph)@),
            resolution.x > 0,
            resolution.y > 0,
        ensures
            final(graph)@ == old(graph)@.with_node(self@.hi_z_node(resolution)),
    {
        graph.add_node(Node::HiZ { depth: self.depth, resolution });
    }

    /// Declares the pass that maps the finished colour onto `target`.
    pub fn tonemapping(&self, graph: &mut RenderGraph, target: RenderTargetHandle)
        requires
            self@.valid_in(old(graph)@),
            old(graph)@.has_target(target),
        ensures
            final(graph)@ == old(graph)@.with_node(self@.tonemapping_node(target)),
    {
        let src = match self.resolve {
            Some(resolve) => resolve,
            None => self.color,
        };
        graph.add_node(Node::Tonemapping { src, dst: target, forward_uniform_bg: self.forward_uniform_bg });
    }
}

/// The sequencer of a frame. It holds nothing of its own: what a frame needs
/// is handed to [`add_to_graph`](BaseRenderGraph::add_to_graph), and what it
/// declares is left in the graph.
#[derive(Debug, Clone, Copy, PartialEq, Eq, Structural, Hash)]
pub struct BaseRenderGraph {}

impl BaseRenderGraph {
    /// Declares a whole frame in `graph`: its targets and data first, then
    /// its passes in the one order that lets each pass find what it reads.
    ///
    /// The shadow atlas is cleared and filled before the viewport is
    /// touched. The viewport is drawn twice: once from what the frame before
    /// found visible, then, after the depth pyramid and this frame's culling,
    /// from what that culling found. Blended materials come after culling,
    /// the skybox before them, tonemapping onto `target_texture` last.
    #[verifier::rlimit(40)]
    pub fn add_to_graph(
        &self,
        graph: &mut RenderGraph,
        eval_output: &InstructionEvaluationOutput,
        skybox: bool,
        target_texture: RenderTargetHandle,
        resolution: UVec2,
        samples: SampleCount,
        ambient: Vec4Bits,
        clear_color: Vec4Bits,
    )
        requires
            resolution.x > 0,
            resolution.y > 0,
            eval_output.shadows@.len() <= u32::MAX,
            old(graph)@.has_target(target_texture),
        ensures
            final(graph)@ == (Frame {
                shadows: eval_output.shadows@,
                shadow_target_size: eval_output.shadow_target_size,
                skybox,
                target_texture,
                resolution,
                samples,
                ambient,
                clear_color,
            }).graph(old(graph)@),
            final(graph)@.targets.len() <= usize::MAX,
            final(graph)@.data.len() <= usize::MAX,
    {
        let ghost before = graph@;
        let ghost frame = Frame {
            shadows: eval_output.shadows@,
            shadow_target_size: eval_output.shadow_target_size,
            skybox,
            target_texture,
            resolution,
            samples,
            ambient,
            clear_color,
        };
        let state = BaseRenderGraphIntermediateState::new(graph, eval_output, resolution, samples);
        let ghost declared = graph@;

        state.clear_shadow(graph);
        state.create_frame_uniforms(graph, ambient, resolution);
        state.skinning(graph);
        state.shadow_object_uniform_upload(graph, eval_output);
        state.pbr_shadow_culling(graph);
        state.pbr_shadow_rendering(graph, eval_output.shadows.as_slice());
        assert(graph@ =~= declared.with_nodes(frame.shadow_stage(before)));

        state.clear(graph, clear_color);
        state.object_uniform_upload(graph, resolution, samples);
        state.pbr_render_opaque_predicted_triangles(graph, samples);
        state.hi_z(graph, resolution);
        state.pbr_culling(graph);
        state.pbr_render_opaque_residual_triangles(graph, samples);
        state.skybox(graph, skybox, samples);
        state.pbr_forward_rendering_transparent(graph, samples);
        state.tonemapping(graph, target_texture);
        assert(graph@ =~= declared.with_nodes(frame.shadow_stage(before) + frame.viewport_stage(before)));
    }
}

} // verus!

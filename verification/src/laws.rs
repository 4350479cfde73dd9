//! What holds of every frame: how many passes there are, where each one
//! lies, and which pass reads what another has written.

use vstd::prelude::*;

use crate::graph::{CameraIndex, DataHandle, GraphView, MipRange, ShadowDesc, TargetResource};
use crate::node::{ForwardRoutine, Node};
use crate::plan::{Frame, StateView};

verus! {

impl Frame {
    /// Where the clear of the viewport lies among the passes of the frame:
    /// after the three opening passes and four passes for each light.
    pub open spec fn viewport_clear_at(self) -> int {
        3 + 4 * (self.shadows.len() as int)
    }

    /// The number of passes of the frame.
    pub open spec fn node_count(self) -> int {
        self.viewport_clear_at() + if self.skybox {
            11int
        } else {
            10int
        }
    }

    /// The pass at position `i` of the frame.
    pub open spec fn node_at(self, graph: GraphView, i: int) -> Node {
        let state = self.state(graph);
        let n = self.shadows.len() as int;
        let v = i - self.viewport_clear_at();
        if i == 0 {
            state.clear_shadow_node()
        } else if i == 1 {
            state.frame_uniforms_node(self.ambient, self.resolution)
        } else if i == 2 {
            state.skinning_node()
        } else if i < 3 + n {
            state.shadow_upload_node(self.shadows, i - 3)
        } else if i < 3 + 2 * n {
            state.shadow_culling_node(i - 3 - n)
        } else if i < 3 + 4 * n {
            state.shadow_rendering_node(self.shadows, i - 3 - 2 * n)
        } else if v == 0 {
            state.clear_node(self.clear_color)
        } else if v == 1 {
            state.object_uniform_upload_node(self.resolution, self.samples)
        } else if v == 2 || v == 3 {
            state.predicted_nodes(self.samples)[v - 2]
        } else if v == 4 {
            state.hi_z_node(self.resolution)
        } else if v == 5 {
            state.culling_node()
        } else if v == 6 || v == 7 {
            state.residual_nodes(self.samples)[v - 6]
        } else if v == 8 && self.skybox {
            state.skybox_node(self.samples)
        } else if i == self.node_count() - 2 {
            state.transparent_node(self.samples)
        } else {
            state.tonemapping_node(self.target_texture)
        }
    }
}

/// The passes of a frame lie in one fixed order: the clear of the shadow
/// atlas, the frame uniforms, skinning, the uploads of all lights, the culling
/// of all lights, the two shadow passes of each light, the clear of the
/// viewport, its upload, the two predicted passes, the depth pyramid, the
/// culling, the two residual passes, the skybox where there is one, the
/// blended materials, tonemapping.
pub proof fn lemma_frame_order(frame: Frame, graph: GraphView)
    ensures
        frame.nodes(graph).len() == frame.node_count(),
        forall|i: int|
            0 <= i < frame.node_count() ==> (#[trigger] frame.nodes(graph)[i]) == frame.node_at(graph, i),
{
    let state = frame.state(graph);
    let n = frame.shadows.len() as int;
    let opening = seq![
        state.clear_shadow_node(),
        state.frame_uniforms_node(frame.ambient, frame.resolution),
        state.skinning_node(),
    ];
    let uploads = state.shadow_upload_nodes(frame.shadows);
    let cullings = state.shadow_culling_nodes();
    let drawings = state.shadow_rendering_nodes(frame.shadows);
    let shadow = frame.shadow_stage(graph);
    assert(shadow == opening + uploads + cullings + drawings);
    assert(state.shadow_lights(frame.shadows) == n);
    assert(shadow.len() == 3 + 4 * n);

    let first = seq![
        state.clear_node(frame.clear_color),
        state.object_uniform_upload_node(frame.resolution, frame.samples),
    ];
    let predicted = state.predicted_nodes(frame.samples);
    let middle = seq![state.hi_z_node(frame.resolution), state.culling_node()];
    let residual = state.residual_nodes(frame.samples);
    let sky = state.skybox_nodes(frame.skybox, frame.samples);
    let closing = seq![state.transparent_node(frame.samples), state.tonemapping_node(frame.target_texture)];
    let viewport = frame.viewport_stage(graph);
    assert(viewport == first + predicted + middle + residual + sky + closing);
    assert(viewport.len() == frame.node_count() - frame.viewport_clear_at());

    let nodes = frame.nodes(graph);
    assert(nodes == shadow + viewport);
    assert forall|i: int| 0 <= i < frame.node_count() implies (#[trigger] nodes[i]) == frame.node_at(
        graph,
        i,
    ) by {
        if i < 3 {
            assert(nodes[i] == opening[i]);
        } else if i < 3 + n {
            assert(nodes[i] == uploads[i - 3]);
        } else if i < 3 + 2 * n {
            assert(nodes[i] == cullings[i - 3 - n]);
        } else if i < 3 + 4 * n {
            assert(nodes[i] == drawings[i - 3 - 2 * n]);
        } else {
            let v = i - frame.viewport_clear_at();
            assert(nodes[i] == viewport[v]);
            if v < 2 {
                assert(viewport[v] == first[v]);
            } else if v < 4 {
                assert(viewport[v] == predicted[v - 2]);
            } else if v < 6 {
                assert(viewport[v] == middle[v - 4]);
            } else if v < 8 {
                assert(viewport[v] == residual[v - 6]);
            } else if v < 8 + sky.len() {
                assert(viewport[v] == sky[v - 8]);
            } else {
                assert(viewport[v] == closing[v - 8 - sky.len()]);
            }
        }
    }
}

/// A frame without shadow lights declares no upload, no culling and no
/// drawing for a shadow camera, and its shadow stages are empty. The clear of
/// the shadow atlas and every pass of the viewport are declared as ever.
pub proof fn lemma_no_lights_no_shadow_passes(frame: Frame, graph: GraphView)
    requires
        frame.shadows.len() == 0,
    ensures
        frame.state(graph).shadow_upload_nodes(frame.shadows).len() == 0,
        frame.state(graph).shadow_culling_nodes().len() == 0,
        frame.state(graph).shadow_rendering_nodes(frame.shadows).len() == 0,
        forall|i: int|
            0 <= i < frame.nodes(graph).len() ==> !(#[trigger] frame.nodes(graph)[i]).uploads_for_shadow()
                && !frame.nodes(graph)[i].culls_for_shadow() && !frame.nodes(graph)[i].draws_for_shadow(),
        frame.nodes(graph)[0] == frame.state(graph).clear_shadow_node(),
        frame.nodes(graph).subrange(3, frame.nodes(graph).len() as int) == frame.viewport_stage(graph),
{
    lemma_frame_order(frame, graph);
    assert(frame.shadow_stage(graph).len() == 3);
    assert(frame.nodes(graph).subrange(3, frame.nodes(graph).len() as int) =~= frame.viewport_stage(graph));
}

/// A frame with `n` shadow lights has `n` sets of shadow draw calls, `n`
/// cullings for shadow cameras and `2 * n` shadow passes, and no others:
/// the cullings fill the positions from `3 + n`, the shadow passes those from
/// `3 + 2 * n` up to the clear of the viewport. Light `l` has its two shadow
/// passes side by side, the opaque materials first and the cutout materials
/// second, both for the light's own camera and from the draw calls that the
/// light's own culling, declared before them, has written.
pub proof fn lemma_shadow_passes(frame: Frame, graph: GraphView)
    ensures
        frame.state(graph).shadow_cull.len() == frame.shadows.len(),
        frame.state(graph).shadow_culling_nodes().len() == frame.shadows.len(),
        frame.state(graph).shadow_rendering_nodes(frame.shadows).len() == 2 * frame.shadows.len(),
        forall|i: int|
            0 <= i < frame.nodes(graph).len() ==> ((#[trigger] frame.nodes(graph)[i]).culls_for_shadow() <==> 3
                + frame.shadows.len() <= i < 3 + 2 * frame.shadows.len()),
        forall|i: int|
            0 <= i < frame.nodes(graph).len() ==> ((#[trigger] frame.nodes(graph)[i]).draws_for_shadow() <==> 3
                + 2 * frame.shadows.len() <= i < 3 + 4 * frame.shadows.len()),
        forall|l: int|
            0 <= l < frame.shadows.len() ==> {
                let culling = frame.nodes(graph)[3 + frame.shadows.len() + l];
                let opaque = frame.nodes(graph)[3 + 2 * frame.shadows.len() + 2 * l];
                let cutout = frame.nodes(graph)[3 + 2 * frame.shadows.len() + 2 * l + 1];
                &&& culling matches Node::Culling { camera, draw_calls, .. }
                &&& camera == CameraIndex::Shadow(l as u32)
                &&& draw_calls == #[trigger] frame.state(graph).shadow_cull[l]
                &&& opaque matches Node::Forward { routine, camera, culling_output_handle, .. }
                &&& routine == ForwardRoutine::OpaqueDepth
                &&& camera == CameraIndex::Shadow(l as u32)
                &&& culling_output_handle == Some(frame.state(graph).shadow_cull[l])
                &&& cutout matches Node::Forward { routine, camera, culling_output_handle, .. }
                &&& routine == ForwardRoutine::CutoutDepth
                &&& camera == CameraIndex::Shadow(l as u32)
                &&& culling_output_handle == Some(frame.state(graph).shadow_cull[l])
            },
{
    lemma_frame_order(frame, graph);
    let state = frame.state(graph);
    let n = frame.shadows.len() as int;
    assert forall|l: int| 0 <= l < n implies {
        let culling = frame.nodes(graph)[3 + n + l];
        let opaque = frame.nodes(graph)[3 + 2 * n + 2 * l];
        let cutout = frame.nodes(graph)[3 + 2 * n + 2 * l + 1];
        &&& culling matches Node::Culling { camera, draw_calls, .. }
        &&& camera == CameraIndex::Shadow(l as u32)
        &&& draw_calls == #[trigger] state.shadow_cull[l]
        &&& opaque matches Node::Forward { routine, camera, culling_output_handle, .. }
        &&& routine == ForwardRoutine::OpaqueDepth
        &&& camera == CameraIndex::Shadow(l as u32)
        &&& culling_output_handle == Some(state.shadow_cull[l])
        &&& cutout matches Node::Forward { routine, camera, culling_output_handle, .. }
        &&& routine == ForwardRoutine::CutoutDepth
        &&& camera == CameraIndex::Shadow(l as u32)
        &&& culling_output_handle == Some(state.shadow_cull[l])
    } by {
        assert(frame.nodes(graph)[3 + n + l] == state.shadow_culling_node(l));
        assert(frame.nodes(graph)[3 + 2 * n + 2 * l] == state.shadow_rendering_node(frame.shadows, 2 * l));
        assert(frame.nodes(graph)[3 + 2 * n + 2 * l + 1] == state.shadow_rendering_node(
            frame.shadows,
            2 * l + 1,
        ));
    }
}

/// The shadow stage of any state, whatever its handles: two passes for
/// each light that has draw calls and a description, in the order of the
/// lights, the opaque materials before the cutout materials, and no pass of
/// another routine.
pub proof fn lemma_shadow_rendering_stage(state: StateView, shadows: Seq<ShadowDesc>)
    ensures
        state.shadow_rendering_nodes(shadows).len() == 2 * state.shadow_lights(shadows),
        forall|k: int|
            0 <= k < 2 * state.shadow_lights(shadows) ==> {
                &&& (#[trigger] state.shadow_rendering_nodes(shadows)[k]) matches Node::Forward {
                    routine,
                    camera,
                    culling_output_handle,
                    ..
                }
                &&& routine == (if k % 2 == 0 {
                    ForwardRoutine::OpaqueDepth
                } else {
                    ForwardRoutine::CutoutDepth
                })
                &&& camera == CameraIndex::Shadow((k / 2) as u32)
                &&& culling_output_handle == Some(state.shadow_cull[k / 2])
            },
{
}

/// A frame clears the colour image of the viewport in one pass. Every pass
/// that clears or draws shadow depth lies before it. The upload of object
/// uniforms for the viewport camera is the pass right after it, and every
/// pass that draws into a colour image lies after that upload.
pub proof fn lemma_viewport_clear_between(frame: Frame, graph: GraphView)
    ensures
        0 <= frame.viewport_clear_at() < frame.nodes(graph).len() - 1,
        frame.nodes(graph)[frame.viewport_clear_at()] == frame.state(graph).clear_node(frame.clear_color),
        forall|i: int|
            0 <= i < frame.nodes(graph).len() ==> ((#[trigger] frame.nodes(graph)[i]).clears_color() <==> i
                == frame.viewport_clear_at()),
        forall|i: int|
            0 <= i < frame.nodes(graph).len() && ((#[trigger] frame.nodes(graph)[i]).clears_depth_only()
                || frame.nodes(graph)[i].draws_for_shadow()) ==> i < frame.viewport_clear_at(),
        forall|i: int|
            0 <= i < frame.nodes(graph).len() ==> ((#[trigger] frame.nodes(graph)[i]).uploads_for_viewport() <==> i
                == frame.viewport_clear_at() + 1),
        forall|i: int|
            0 <= i < frame.nodes(graph).len() && (#[trigger] frame.nodes(graph)[i]).draws_color() ==> i
                > frame.viewport_clear_at() + 1,
        frame.nodes(graph)[0].clears_depth_only(),
{
    lemma_frame_order(frame, graph);
}

/// A frame culls for the viewport in one pass. Every pass that draws for
/// the viewport before it is handed no draw calls of this frame; the two
/// predicted passes are such. Every pass that draws for the viewport after it
/// is handed the draw calls that it writes; the two residual passes and the
/// pass over the blended materials are such.
pub proof fn lemma_temporal_separation(frame: Frame, graph: GraphView)
    ensures
        forall|j: int|
            0 <= j < frame.nodes(graph).len() ==> ((#[trigger] frame.nodes(graph)[j]).culls_for_viewport() <==> j
                == frame.viewport_clear_at() + 5),
        frame.nodes(graph)[frame.viewport_clear_at() + 5].produced_draw_calls() == Some(frame.state(graph).cull),
        forall|i: int|
            0 <= i < frame.viewport_clear_at() + 5 && (#[trigger] frame.nodes(graph)[i]).draws_for_viewport()
                ==> frame.nodes(graph)[i].consumed_draw_calls() is None,
        forall|i: int|
            frame.viewport_clear_at() + 5 < i < frame.nodes(graph).len() && (#[trigger] frame.nodes(
                graph,
            )[i]).draws_for_viewport() ==> frame.nodes(graph)[i].consumed_draw_calls() == Some(
                frame.state(graph).cull,
            ),
        forall|k: int|
            2 <= k < 4 ==> (#[trigger] frame.nodes(graph)[frame.viewport_clear_at() + k])
                == frame.state(graph).predicted_nodes(frame.samples)[k - 2],
        forall|k: int|
            6 <= k < 8 ==> (#[trigger] frame.nodes(graph)[frame.viewport_clear_at() + k])
                == frame.state(graph).residual_nodes(frame.samples)[k - 6],
        frame.nodes(graph)[frame.node_count() - 2] == frame.state(graph).transparent_node(frame.samples),
        forall|k: int|
            0 <= k < 2 ==> (#[trigger] frame.state(graph).predicted_nodes(frame.samples)[k]).draws_for_viewport()
                && frame.state(graph).residual_nodes(frame.samples)[k].draws_for_viewport(),
        frame.state(graph).transparent_node(frame.samples).draws_for_viewport(),
{
    lemma_frame_order(frame, graph);
    let c = frame.viewport_clear_at();
    assert(frame.nodes(graph)[c + 2] == frame.node_at(graph, c + 2));
    assert(frame.nodes(graph)[c + 3] == frame.node_at(graph, c + 3));
    assert(frame.nodes(graph)[c + 5] == frame.node_at(graph, c + 5));
    assert(frame.nodes(graph)[c + 6] == frame.node_at(graph, c + 6));
    assert(frame.nodes(graph)[c + 7] == frame.node_at(graph, c + 7));
}

/// A frame without a skybox declares what the same frame with a skybox
/// declares, less the one skybox pass: the same targets, the same data
/// slots, the same handles, and the other passes as they are and in their
/// order.
pub proof fn lemma_skybox_is_one_pass(frame: Frame, graph: GraphView)
    ensures
        ({
            let with = Frame { skybox: true, ..frame };
            let without = Frame { skybox: false, ..frame };
            &&& with.state(graph) == without.state(graph)
            &&& with.declared(graph) == without.declared(graph)
            &&& with.nodes(graph).len() == without.nodes(graph).len() + 1
            &&& with.nodes(graph)[frame.viewport_clear_at() + 8] == with.state(graph).skybox_node(frame.samples)
            &&& without.nodes(graph) == with.nodes(graph).remove(frame.viewport_clear_at() + 8)
            &&& forall|i: int|
                0 <= i < without.nodes(graph).len() ==> !(#[trigger] without.nodes(graph)[i] is Skybox)
        }),
{
    let with = Frame { skybox: true, ..frame };
    let without = Frame { skybox: false, ..frame };
    lemma_frame_order(with, graph);
    lemma_frame_order(without, graph);
    let c = frame.viewport_clear_at();
    assert(with.viewport_clear_at() == c && without.viewport_clear_at() == c);
    let removed = with.nodes(graph).remove(c + 8);
    assert forall|i: int| 0 <= i < without.nodes(graph).len() implies without.nodes(graph)[i] == removed[i] by {
        if i < c + 8 {
            assert(removed[i] == with.nodes(graph)[i]);
        } else {
            assert(removed[i] == with.nodes(graph)[i + 1]);
        }
    }
    assert(without.nodes(graph) =~= removed);
}

/// Declaring one frame in two graphs that hold equally many targets and
/// data slots hands out the same handles and declares the same passes in
/// the same order, after the same targets and data slots.
pub proof fn lemma_same_frame_same_passes(frame: Frame, first: GraphView, second: GraphView)
    requires
        first.targets.len() == second.targets.len(),
        first.data.len() == second.data.len(),
    ensures
        frame.state(first) == frame.state(second),
        frame.nodes(first) == frame.nodes(second),
        frame.graph(first).nodes.len() - first.nodes.len() == frame.graph(second).nodes.len()
            - second.nodes.len(),
        first == second ==> frame.graph(first) == frame.graph(second),
        first.targets == second.targets ==> frame.graph(first).targets == frame.graph(second).targets,
        first.data == second.data ==> frame.graph(first).data == frame.graph(second).data,
{
    assert(frame.state(first).shadow_cull =~= frame.state(second).shadow_cull);
    assert(frame.state(first) =~= frame.state(second));
}

/// Whatever data slot a pass of a frame reads, a pass declared before it
/// has filled: the uniforms, the buffers of skinning, and each set of draw
/// calls.
pub proof fn lemma_reads_follow_writes(frame: Frame, graph: GraphView)
    ensures
        forall|j: int, handle: DataHandle|
            0 <= j < frame.nodes(graph).len() && (#[trigger] frame.nodes(graph)[j].reads_data(handle))
                ==> exists|i: int| 0 <= i < j && #[trigger] frame.nodes(graph)[i].writes_data(handle),
{
    lemma_frame_order(frame, graph);
    let nodes = frame.nodes(graph);
    let state = frame.state(graph);
    let n = frame.shadows.len() as int;
    let c = frame.viewport_clear_at();
    assert forall|j: int, handle: DataHandle|
        0 <= j < nodes.len() && (#[trigger] nodes[j].reads_data(handle)) implies exists|i: int|
        0 <= i < j && #[trigger] nodes[i].writes_data(handle) by {
        assert(nodes[j] == frame.node_at(graph, j));
        assert(nodes[1] == frame.node_at(graph, 1));
        assert(nodes[2] == frame.node_at(graph, 2));
        if handle == state.shadow_uniform_bg || handle == state.forward_uniform_bg {
            assert(nodes[1].writes_data(handle));
        } else if handle == state.pre_skinning_buffers {
            assert(nodes[2].writes_data(handle));
        } else if j < c {
            let light = (j - 3 - 2 * n) / 2;
            assert(nodes[3 + n + light] == frame.node_at(graph, 3 + n + light));
            assert(nodes[3 + n + light].writes_data(handle));
        } else {
            assert(nodes[c + 5] == frame.node_at(graph, c + 5));
            assert(nodes[c + 5].writes_data(handle));
        }
    }
}

/// Whatever image a pass of a frame reads, a pass declared before it has
/// written: the shadow atlas is cleared before anything tests against it, the
/// images of the viewport are cleared before anything is drawn, and the
/// depth pyramid is built before the viewport is culled against it.
pub proof fn lemma_image_reads_follow_writes(frame: Frame, graph: GraphView)
    ensures
        forall|j: int, image: TargetResource|
            0 <= j < frame.nodes(graph).len() && (#[trigger] frame.nodes(graph)[j].reads_image(image))
                ==> exists|i: int| 0 <= i < j && #[trigger] frame.nodes(graph)[i].writes_image(image),
{
    lemma_frame_order(frame, graph);
    let nodes = frame.nodes(graph);
    let c = frame.viewport_clear_at();
    assert forall|j: int, image: TargetResource|
        0 <= j < nodes.len() && (#[trigger] nodes[j].reads_image(image)) implies exists|i: int|
        0 <= i < j && #[trigger] nodes[i].writes_image(image) by {
        assert(nodes[j] == frame.node_at(graph, j));
        assert(nodes[0] == frame.node_at(graph, 0));
        assert(nodes[c] == frame.node_at(graph, c));
        assert(nodes[c + 4] == frame.node_at(graph, c + 4));
        if j < c {
            assert(nodes[0].writes_image(image));
        } else if j == c + 5 {
            assert(nodes[c + 4].writes_image(image));
        } else {
            assert(nodes[c].writes_image(image));
        }
    }
}

/// Drawing for the viewport goes to the depth image that passes draw into:
/// the multisampled image in a multisampled frame, else level 0 of the
/// single-sample image. Culling for the viewport and the depth pyramid are
/// given the single-sample image with all its levels.
pub proof fn lemma_depth_images_by_role(frame: Frame, graph: GraphView)
    ensures
        frame.state(graph).depth.multi_sample.is_some() == frame.samples.needs_resolve(),
        frame.state(graph).resolve.is_some() == frame.samples.needs_resolve(),
        frame.state(graph).depth.rendering_target() == (match frame.state(graph).depth.multi_sample {
            Some(multi_sample) => multi_sample,
            None => frame.state(graph).depth.single_sample_mipped.with_mips(MipRange { start: 0, end: 1 }),
        }),
        forall|i: int|
            0 <= i < frame.nodes(graph).len() ==> match #[trigger] frame.nodes(graph)[i] {
                Node::Clear { color: Some(_), depth, .. } => depth == frame.state(graph).depth.rendering_target(),
                Node::Forward { camera: CameraIndex::Viewport, depth, .. } => depth == frame.state(
                    graph,
                ).depth.rendering_target(),
                Node::Skybox { depth, .. } => depth == frame.state(graph).depth.rendering_target(),
                Node::Culling { camera: CameraIndex::Viewport, depth, .. } => depth == frame.state(
                    graph,
                ).depth.single_sample_mipped && depth.mips.is_none(),
                Node::HiZ { depth, .. } => depth == frame.state(graph).depth,
                _ => true,
            },
{
    lemma_frame_order(frame, graph);
}

/// The handles of a frame name different things: the two sets of uniforms
/// are two slots, each shadow light has a set of draw calls of its own, and
/// none of them is that of the viewport. The images are all different too.
pub proof fn lemma_handles_differ(frame: Frame, graph: GraphView)
    requires
        frame.declared(graph).data.len() <= usize::MAX,
        frame.declared(graph).targets.len() <= usize::MAX,
    ensures
        frame.state(graph).shadow_uniform_bg != frame.state(graph).forward_uniform_bg,
        forall|i: int, j: int|
            0 <= i < j < frame.shadows.len() ==> (#[trigger] frame.state(graph).shadow_cull[i]) != (
            #[trigger] frame.state(graph).shadow_cull[j]),
        forall|i: int|
            0 <= i < frame.shadows.len() ==> (#[trigger] frame.state(graph).shadow_cull[i]) != frame.state(
                graph,
            ).cull,
        frame.state(graph).shadow.resource != frame.state(graph).color.resource,
        frame.state(graph).color.resource != frame.state(graph).depth.single_sample_mipped.resource,
        frame.state(graph).shadow.resource != frame.state(graph).depth.single_sample_mipped.resource,
        frame.state(graph).resolve matches Some(resolve) ==> resolve.resource != frame.state(graph).color.resource
            && resolve.resource != frame.state(graph).depth.single_sample_mipped.resource,
        frame.state(graph).depth.multi_sample matches Some(multi_sample) ==> multi_sample.resource
            != frame.state(graph).depth.single_sample_mipped.resource && multi_sample.resource
            != frame.state(graph).color.resource,
{
}

/// Each set of draw calls of a frame is written by one pass: that of light
/// `l` by the culling of light `l`, that of the viewport by the culling of
/// the viewport.
pub proof fn lemma_one_writer_for_each_draw_call_set(frame: Frame, graph: GraphView)
    requires
        frame.declared(graph).data.len() <= usize::MAX,
    ensures
        forall|i: int, l: int|
            0 <= i < frame.nodes(graph).len() && 0 <= l < frame.shadows.len() ==> (#[trigger] frame.nodes(
                graph,
            )[i].writes_data(frame.state(graph).shadow_cull[l]) <==> i == 3 + frame.shadows.len() + l),
        forall|i: int|
            0 <= i < frame.nodes(graph).len() ==> (#[trigger] frame.nodes(graph)[i].writes_data(
                frame.state(graph).cull,
            ) <==> i == frame.viewport_clear_at() + 5),
{
    lemma_frame_order(frame, graph);
}

} // verus!

use rend3_routine::base::{BaseRenderGraph, BaseRenderGraphIntermediateState, DepthTargets};
use rend3_routine::clear::add_clear_to_graph;
use rend3_routine::graph::{
    CameraIndex, DataHandle, DataKind, InstructionEvaluationOutput, MipRange, RenderGraph, RenderTargetHandle,
    SampleCount, ShadowDesc, ShadowMap, TargetResource, UVec2, Vec4Bits, ViewportRect,
};
use rend3_routine::node::{
    ForwardRoutine, Label, Node, RenderPassDepthTarget, RenderPassTarget, RenderPassTargets,
};

const FULL_HD: UVec2 = UVec2 { x: 1920, y: 1080 };

fn texture(index: usize) -> RenderTargetHandle {
    RenderTargetHandle { resource: TargetResource::Texture(index), mips: None, viewport: None }
}

fn mip_zero(index: usize) -> RenderTargetHandle {
    RenderTargetHandle {
        resource: TargetResource::Texture(index),
        mips: Some(MipRange { start: 0, end: 1 }),
        viewport: None,
    }
}

fn slot(index: usize, kind: DataKind) -> DataHandle {
    DataHandle { index, kind }
}

fn bits(x: f32, y: f32, z: f32, w: f32) -> Vec4Bits {
    Vec4Bits { x: x.to_bits(), y: y.to_bits(), z: z.to_bits(), w: w.to_bits() }
}

fn lights(sizes: &[u32]) -> InstructionEvaluationOutput {
    let mut shadows = Vec::new();
    let mut x = 0;
    for size in sizes {
        shadows.push(ShadowDesc { map: ShadowMap { offset: UVec2 { x, y: 0 }, size: *size } });
        x += *size;
    }
    InstructionEvaluationOutput { shadows, shadow_target_size: UVec2 { x: 4096, y: 2048 } }
}

fn plain(text: &'static str) -> Label {
    Label { prefix: text, index: None }
}

/// Declares a whole frame in a new graph.
fn frame(sizes: &[u32], skybox: bool, samples: SampleCount) -> RenderGraph {
    let mut graph = RenderGraph::new();
    let target = graph.add_surface_texture();
    BaseRenderGraph {}.add_to_graph(
        &mut graph,
        &lights(sizes),
        skybox,
        target,
        FULL_HD,
        samples,
        bits(0.1, 0.1, 0.1, 1.0),
        bits(0.0, 0.25, 0.5, 1.0),
    );
    graph
}

fn is_shadow_clear(node: &Node) -> bool {
    matches!(node, Node::Clear { color: None, .. })
}

fn is_main_clear(node: &Node) -> bool {
    matches!(node, Node::Clear { color: Some(_), .. })
}

fn is_shadow_upload(node: &Node) -> bool {
    matches!(node, Node::ObjectUniformUpload { camera: CameraIndex::Shadow(_), .. })
}

fn is_viewport_upload(node: &Node) -> bool {
    matches!(node, Node::ObjectUniformUpload { camera: CameraIndex::Viewport, .. })
}

fn is_shadow_culling(node: &Node) -> bool {
    matches!(node, Node::Culling { camera: CameraIndex::Shadow(_), .. })
}

fn is_viewport_culling(node: &Node) -> bool {
    matches!(node, Node::Culling { camera: CameraIndex::Viewport, .. })
}

fn is_shadow_rendering(node: &Node) -> bool {
    matches!(node, Node::Forward { camera: CameraIndex::Shadow(_), .. })
}

fn is_predicted(node: &Node) -> bool {
    matches!(node, Node::Forward { label, .. } if label.to_string() == "PBR Forward Pass 1")
}

fn is_residual(node: &Node) -> bool {
    matches!(node, Node::Forward { label, .. } if label.to_string() == "PBR Forward Pass 2")
}

fn is_transparent(node: &Node) -> bool {
    matches!(node, Node::Forward { routine: ForwardRoutine::Blend, .. })
}

fn count(graph: &RenderGraph, what: fn(&Node) -> bool) -> usize {
    graph.nodes.iter().filter(|node| what(node)).count()
}

fn positions(graph: &RenderGraph, what: fn(&Node) -> bool) -> Vec<usize> {
    (0..graph.nodes.len()).filter(|i| what(&graph.nodes[*i])).collect()
}

#[test]
fn full_hd_frame_with_two_lights_and_skybox() {
    let graph = frame(&[512, 256], true, SampleCount::One);
    assert_eq!(count(&graph, is_shadow_clear), 1);
    assert_eq!(count(&graph, |n| matches!(n, Node::FrameUniforms { .. })), 1);
    assert_eq!(count(&graph, |n| matches!(n, Node::Skinning { .. })), 1);
    assert_eq!(count(&graph, is_shadow_upload), 2);
    assert_eq!(count(&graph, is_shadow_culling), 2);
    assert_eq!(count(&graph, is_shadow_rendering), 4);
    assert_eq!(count(&graph, is_main_clear), 1);
    assert_eq!(count(&graph, is_viewport_upload), 1);
    assert_eq!(count(&graph, is_predicted), 2);
    assert_eq!(count(&graph, |n| matches!(n, Node::HiZ { .. })), 1);
    assert_eq!(count(&graph, is_viewport_culling), 1);
    assert_eq!(count(&graph, is_residual), 2);
    assert_eq!(count(&graph, |n| matches!(n, Node::Skybox { .. })), 1);
    assert_eq!(count(&graph, is_transparent), 1);
    assert_eq!(count(&graph, |n| matches!(n, Node::Tonemapping { .. })), 1);
    assert_eq!(graph.nodes.len(), 22);
    assert_eq!(graph.targets.len(), 3);
    assert_eq!(graph.data.len(), 7);
}

#[test]
fn full_hd_frame_with_two_lights_in_full() {
    let graph = frame(&[512, 256], true, SampleCount::One);
    let shadow_bg = slot(0, DataKind::BindGroup);
    let forward_bg = slot(1, DataKind::BindGroup);
    let shadow_cull = [slot(4, DataKind::DrawCallSet), slot(5, DataKind::DrawCallSet)];
    let cull = slot(6, DataKind::DrawCallSet);
    let buffers = slot(2, DataKind::PreSkinningBuffers);
    let shadow = texture(0);
    let color = texture(1);
    let depth = DepthTargets { single_sample_mipped: texture(2), multi_sample: None };
    let surface = RenderTargetHandle { resource: TargetResource::Surface, mips: None, viewport: None };
    let shadow_label = |i: u32| Label { prefix: "Shadow Culling S", index: Some(i) };
    let shadow_pass = |routine: ForwardRoutine, i: u32, x: u32, size: u32| Node::Forward {
        routine,
        whole_frame_uniform_bg: shadow_bg,
        culling_output_handle: Some(shadow_cull[i as usize]),
        label: Label { prefix: "pbr shadow renderering S", index: Some(i) },
        samples: SampleCount::One,
        camera: CameraIndex::Shadow(i),
        color: None,
        resolve: None,
        depth: RenderTargetHandle {
            resource: TargetResource::Texture(0),
            mips: None,
            viewport: Some(ViewportRect { offset: UVec2 { x, y: 0 }, size: UVec2 { x: size, y: size } }),
        },
    };
    let forward = |routine: ForwardRoutine, culling: Option<DataHandle>, label: &'static str| Node::Forward {
        routine,
        whole_frame_uniform_bg: forward_bg,
        culling_output_handle: culling,
        label: plain(label),
        samples: SampleCount::One,
        camera: CameraIndex::Viewport,
        color: Some(color),
        resolve: None,
        depth: mip_zero(2),
    };
    let expected = vec![
        Node::Clear {
            label: plain("Clear"),
            color: None,
            resolve: None,
            depth: shadow,
            targets: RenderPassTargets {
                target: None,
                depth_stencil: Some(RenderPassDepthTarget {
                    target: shadow,
                    depth_clear: Some(0),
                    stencil_clear: None,
                }),
            },
        },
        Node::FrameUniforms {
            shadow_uniform_bg: shadow_bg,
            forward_uniform_bg: forward_bg,
            shadow_target: shadow,
            ambient: bits(0.1, 0.1, 0.1, 1.0),
            resolution: FULL_HD,
        },
        Node::Skinning { pre_skinning_buffers: buffers },
        Node::ObjectUniformUpload {
            pre_skinning_buffers: buffers,
            camera: CameraIndex::Shadow(0),
            resolution: UVec2 { x: 512, y: 512 },
            samples: SampleCount::One,
            label: shadow_label(0),
        },
        Node::ObjectUniformUpload {
            pre_skinning_buffers: buffers,
            camera: CameraIndex::Shadow(1),
            resolution: UVec2 { x: 256, y: 256 },
            samples: SampleCount::One,
            label: shadow_label(1),
        },
        Node::Culling {
            draw_calls: shadow_cull[0],
            depth: shadow,
            camera: CameraIndex::Shadow(0),
            label: shadow_label(0),
        },
        Node::Culling {
            draw_calls: shadow_cull[1],
            depth: shadow,
            camera: CameraIndex::Shadow(1),
            label: shadow_label(1),
        },
        shadow_pass(ForwardRoutine::OpaqueDepth, 0, 0, 512),
        shadow_pass(ForwardRoutine::CutoutDepth, 0, 0, 512),
        shadow_pass(ForwardRoutine::OpaqueDepth, 1, 512, 256),
        shadow_pass(ForwardRoutine::CutoutDepth, 1, 512, 256),
        Node::Clear {
            label: plain("Clear"),
            color: Some(color),
            resolve: None,
            depth: mip_zero(2),
            targets: RenderPassTargets {
                target: Some(RenderPassTarget { color, clear: bits(0.0, 0.25, 0.5, 1.0), resolve: None }),
                depth_stencil: Some(RenderPassDepthTarget {
                    target: mip_zero(2),
                    depth_clear: Some(0),
                    stencil_clear: None,
                }),
            },
        },
        Node::ObjectUniformUpload {
            pre_skinning_buffers: buffers,
            camera: CameraIndex::Viewport,
            resolution: FULL_HD,
            samples: SampleCount::One,
            label: plain("Uniform Bake"),
        },
        forward(ForwardRoutine::Opaque, None, "PBR Forward Pass 1"),
        forward(ForwardRoutine::Cutout, None, "PBR Forward Pass 1"),
        Node::HiZ { depth, resolution: FULL_HD },
        Node::Culling {
            draw_calls: cull,
            depth: texture(2),
            camera: CameraIndex::Viewport,
            label: plain("Primary Culling"),
        },
        forward(ForwardRoutine::Opaque, Some(cull), "PBR Forward Pass 2"),
        forward(ForwardRoutine::Cutout, Some(cull), "PBR Forward Pass 2"),
        Node::Skybox { color, resolve: None, depth: mip_zero(2), forward_uniform_bg: forward_bg, samples: SampleCount::One },
        forward(ForwardRoutine::Blend, Some(cull), "PBR Forward"),
        Node::Tonemapping { src: color, dst: surface, forward_uniform_bg: forward_bg },
    ];
    assert_eq!(graph.nodes.len(), expected.len());
    for (i, (got, want)) in graph.nodes.iter().zip(expected.iter()).enumerate() {
        assert_eq!(got, want, "pass {}", i);
    }
}

#[test]
fn frame_without_skybox_lacks_only_the_skybox_pass() {
    let with = frame(&[512, 256], true, SampleCount::One);
    let without = frame(&[512, 256], false, SampleCount::One);
    assert_eq!(count(&without, |n| matches!(n, Node::Skybox { .. })), 0);
    assert_eq!(without.nodes.len(), 21);
    let rest: Vec<Node> = with.nodes.iter().filter(|n| !matches!(n, Node::Skybox { .. })).cloned().collect();
    assert_eq!(without.nodes, rest);
    assert_eq!(without.targets, with.targets);
    assert_eq!(without.data, with.data);
}

#[test]
fn frame_without_lights_has_no_shadow_culling_and_no_shadow_rendering() {
    for samples in [SampleCount::One, SampleCount::Four] {
        let graph = frame(&[], true, samples);
        assert_eq!(count(&graph, is_shadow_upload), 0);
        assert_eq!(count(&graph, is_shadow_culling), 0);
        assert_eq!(count(&graph, is_shadow_rendering), 0);
        // The atlas is still cleared, and the viewport is drawn as ever.
        assert_eq!(count(&graph, is_shadow_clear), 1);
        assert_eq!(graph.nodes.len(), 14);
        assert_eq!(positions(&graph, is_main_clear), vec![3]);
    }
}

#[test]
fn stages_over_no_lights_declare_nothing() {
    let mut graph = RenderGraph::new();
    let eval = lights(&[]);
    let state = BaseRenderGraphIntermediateState::new(&mut graph, &eval, FULL_HD, SampleCount::One);
    state.shadow_object_uniform_upload(&mut graph, &eval);
    state.pbr_shadow_culling(&mut graph);
    state.pbr_shadow_rendering(&mut graph, &eval.shadows);
    assert!(graph.nodes.is_empty());
}

#[test]
fn each_light_has_one_culling_and_two_shadow_passes() {
    for n in [1usize, 2, 3, 8] {
        let sizes: Vec<u32> = (0..n).map(|i| 64 << (i % 3)).collect();
        let graph = frame(&sizes, false, SampleCount::One);
        assert_eq!(count(&graph, is_shadow_culling), n);
        assert_eq!(count(&graph, is_shadow_rendering), 2 * n);
        assert_eq!(positions(&graph, is_shadow_upload), (3..3 + n).collect::<Vec<_>>());
        assert_eq!(positions(&graph, is_shadow_culling), (3 + n..3 + 2 * n).collect::<Vec<_>>());
        assert_eq!(positions(&graph, is_shadow_rendering), (3 + 2 * n..3 + 4 * n).collect::<Vec<_>>());
        assert_eq!(graph.nodes.len(), 4 * n + 13);
        for light in 0..n {
            let written = match graph.nodes[3 + n + light] {
                Node::Culling { draw_calls, camera, .. } => {
                    assert_eq!(camera, CameraIndex::Shadow(light as u32));
                    draw_calls
                }
                other => panic!("not a culling: {:?}", other),
            };
            assert_eq!(written, slot(4 + light, DataKind::DrawCallSet));
            for (k, expected) in [ForwardRoutine::OpaqueDepth, ForwardRoutine::CutoutDepth].into_iter().enumerate() {
                match graph.nodes[3 + 2 * n + 2 * light + k] {
                    Node::Forward { routine, camera, culling_output_handle, color, resolve, samples, .. } => {
                        assert_eq!(routine, expected);
                        assert_eq!(camera, CameraIndex::Shadow(light as u32));
                        assert_eq!(culling_output_handle, Some(written));
                        assert_eq!(color, None);
                        assert_eq!(resolve, None);
                        assert_eq!(samples, SampleCount::One);
                    }
                    other => panic!("not a shadow pass: {:?}", other),
                }
            }
        }
    }
}

#[test]
fn viewport_clear_lies_after_the_shadow_passes_and_before_the_upload() {
    for (sizes, skybox, samples) in [
        (vec![], false, SampleCount::One),
        (vec![128], true, SampleCount::Four),
        (vec![128, 128, 256, 512], false, SampleCount::Four),
    ] {
        let graph = frame(&sizes, skybox, samples);
        let clear = positions(&graph, is_main_clear);
        assert_eq!(clear, vec![3 + 4 * sizes.len()]);
        assert_eq!(positions(&graph, is_shadow_clear), vec![0]);
        assert!(positions(&graph, is_shadow_rendering).iter().all(|i| *i < clear[0]));
        assert_eq!(positions(&graph, is_viewport_upload), vec![clear[0] + 1]);
    }
}

#[test]
fn predicted_pass_reads_no_draw_calls_of_this_frame() {
    let graph = frame(&[64, 64], true, SampleCount::Four);
    let written: Vec<DataHandle> = graph
        .nodes
        .iter()
        .filter_map(|n| match n {
            Node::Culling { draw_calls, .. } => Some(*draw_calls),
            _ => None,
        })
        .collect();
    assert_eq!(written.len(), 3);
    let predicted = positions(&graph, is_predicted);
    assert_eq!(predicted, vec![13, 14]);
    for i in predicted {
        match graph.nodes[i] {
            Node::Forward { culling_output_handle, .. } => assert_eq!(culling_output_handle, None),
            other => panic!("not a forward pass: {:?}", other),
        }
    }
}

#[test]
fn residual_and_transparent_passes_read_the_viewport_culling() {
    let graph = frame(&[64, 64], true, SampleCount::Four);
    let culling = positions(&graph, is_viewport_culling);
    assert_eq!(culling, vec![16]);
    let cull = match graph.nodes[16] {
        Node::Culling { draw_calls, depth, .. } => {
            // Culling tests against the resolved image and its pyramid.
            assert_eq!(depth, texture(3));
            draw_calls
        }
        other => panic!("not a culling: {:?}", other),
    };
    assert_eq!(cull, slot(6, DataKind::DrawCallSet));
    let mut readers = positions(&graph, is_residual);
    readers.extend(positions(&graph, is_transparent));
    assert_eq!(readers, vec![17, 18, 20]);
    for i in readers {
        match graph.nodes[i] {
            Node::Forward { culling_output_handle, depth, resolve, .. } => {
                assert_eq!(culling_output_handle, Some(cull));
                // Drawing goes to the multisampled images.
                assert_eq!(depth, texture(4));
                assert_eq!(resolve, Some(texture(2)));
            }
            other => panic!("not a forward pass: {:?}", other),
        }
    }
}

#[test]
fn every_read_follows_a_write() {
    let graph = frame(&[64, 32, 16], true, SampleCount::Four);
    let mut written: Vec<DataHandle> = Vec::new();
    for node in &graph.nodes {
        let reads = match node {
            Node::ObjectUniformUpload { pre_skinning_buffers, .. } => vec![*pre_skinning_buffers],
            Node::Forward { whole_frame_uniform_bg, culling_output_handle, .. } => {
                let mut reads = vec![*whole_frame_uniform_bg];
                reads.extend(culling_output_handle.iter());
                reads
            }
            Node::Skybox { forward_uniform_bg, .. } | Node::Tonemapping { forward_uniform_bg, .. } => {
                vec![*forward_uniform_bg]
            }
            _ => vec![],
        };
        for handle in reads {
            assert!(written.contains(&handle), "{:?} is read before it is written", handle);
        }
        match node {
            Node::FrameUniforms { shadow_uniform_bg, forward_uniform_bg, .. } => {
                written.push(*shadow_uniform_bg);
                written.push(*forward_uniform_bg);
            }
            Node::Skinning { pre_skinning_buffers } => written.push(*pre_skinning_buffers),
            Node::Culling { draw_calls, .. } => written.push(*draw_calls),
            _ => {}
        }
    }
    assert_eq!(written.len(), 7);
    let mut distinct = written.clone();
    distinct.sort_by_key(|handle| handle.index);
    distinct.dedup();
    assert_eq!(distinct.len(), 7);
}

#[test]
fn two_graphs_from_the_same_inputs_are_alike() {
    for (sizes, skybox, samples) in
        [(vec![], false, SampleCount::One), (vec![512, 256], true, SampleCount::One), (vec![64], true, SampleCount::Four)]
    {
        let first = frame(&sizes, skybox, samples);
        let second = frame(&sizes, skybox, samples);
        assert_eq!(first.targets, second.targets);
        assert_eq!(first.data, second.data);
        assert_eq!(first.nodes, second.nodes);
    }
}

#[test]
fn frame_in_a_graph_that_holds_passes_already_follows_them() {
    let mut graph = RenderGraph::new();
    let target = graph.add_surface_texture();
    add_clear_to_graph(&mut graph, Some(target), None, target, bits(0.0, 0.0, 0.0, 1.0), 0);
    let before = graph.nodes[0];
    BaseRenderGraph {}.add_to_graph(
        &mut graph,
        &lights(&[32]),
        false,
        target,
        UVec2 { x: 1, y: 1 },
        SampleCount::One,
        bits(0.0, 0.0, 0.0, 0.0),
        bits(0.0, 0.0, 0.0, 0.0),
    );
    let alone = {
        let mut graph = RenderGraph::new();
        let target = graph.add_surface_texture();
        BaseRenderGraph {}.add_to_graph(
            &mut graph,
            &lights(&[32]),
            false,
            target,
            UVec2 { x: 1, y: 1 },
            SampleCount::One,
            bits(0.0, 0.0, 0.0, 0.0),
            bits(0.0, 0.0, 0.0, 0.0),
        );
        graph
    };
    assert_eq!(graph.nodes.len(), 1 + 17);
    assert_eq!(graph.nodes[0], before);
    assert_eq!(graph.nodes[1..], alone.nodes[..]);
}

#[test]
fn multisampled_frame_tonemaps_the_resolve_target() {
    let graph = frame(&[], false, SampleCount::Four);
    let surface = RenderTargetHandle { resource: TargetResource::Surface, mips: None, viewport: None };
    assert_eq!(
        graph.nodes[12],
        Node::Tonemapping { src: texture(2), dst: surface, forward_uniform_bg: slot(1, DataKind::BindGroup) }
    );
    match graph.nodes[3] {
        Node::Clear { color, resolve, depth, targets, .. } => {
            assert_eq!(color, Some(texture(1)));
            assert_eq!(resolve, Some(texture(2)));
            assert_eq!(depth, texture(4));
            assert_eq!(
                targets.target,
                Some(RenderPassTarget {
                    color: texture(1),
                    clear: bits(0.0, 0.25, 0.5, 1.0),
                    resolve: Some(texture(2)),
                })
            );
        }
        other => panic!("not a clear pass: {:?}", other),
    }
    assert_eq!(
        graph.nodes[7],
        Node::HiZ {
            depth: DepthTargets { single_sample_mipped: texture(3), multi_sample: Some(texture(4)) },
            resolution: FULL_HD,
        }
    );
}

#[test]
fn single_sampled_frame_tonemaps_the_color_image() {
    let graph = frame(&[], false, SampleCount::One);
    match graph.nodes[12] {
        Node::Tonemapping { src, .. } => assert_eq!(src, texture(1)),
        other => panic!("not tonemapping: {:?}", other),
    }
}

#[test]
fn shadow_rendering_stops_at_the_shorter_list() {
    let mut graph = RenderGraph::new();
    let eval = lights(&[64, 128, 256]);
    let state = BaseRenderGraphIntermediateState::new(&mut graph, &eval, FULL_HD, SampleCount::One);
    state.pbr_shadow_rendering(&mut graph, &eval.shadows[..2]);
    assert_eq!(graph.nodes.len(), 4);
    let cameras: Vec<CameraIndex> = graph
        .nodes
        .iter()
        .map(|n| match n {
            Node::Forward { camera, .. } => *camera,
            other => panic!("not a shadow pass: {:?}", other),
        })
        .collect();
    assert_eq!(
        cameras,
        vec![CameraIndex::Shadow(0), CameraIndex::Shadow(0), CameraIndex::Shadow(1), CameraIndex::Shadow(1)]
    );
    match graph.nodes[3] {
        Node::Forward { depth, label, .. } => {
            assert_eq!(
                depth.viewport,
                Some(ViewportRect { offset: UVec2 { x: 64, y: 0 }, size: UVec2 { x: 128, y: 128 } })
            );
            assert_eq!(label.to_string(), "pbr shadow renderering S1");
        }
        other => panic!("not a shadow pass: {:?}", other),
    }
}

#[test]
fn shadow_stages_are_labelled_by_light() {
    let mut graph = RenderGraph::new();
    let eval = lights(&[64, 128]);
    let state = BaseRenderGraphIntermediateState::new(&mut graph, &eval, FULL_HD, SampleCount::One);
    state.shadow_object_uniform_upload(&mut graph, &eval);
    state.pbr_shadow_culling(&mut graph);
    let labels: Vec<String> = graph
        .nodes
        .iter()
        .map(|n| match n {
            Node::ObjectUniformUpload { label, .. } | Node::Culling { label, .. } => label.to_string(),
            other => panic!("unexpected pass: {:?}", other),
        })
        .collect();
    assert_eq!(labels, vec!["Shadow Culling S0", "Shadow Culling S1", "Shadow Culling S0", "Shadow Culling S1"]);
}

#[test]
fn skybox_stage_without_a_skybox_declares_nothing() {
    let mut graph = RenderGraph::new();
    let eval = lights(&[]);
    let state = BaseRenderGraphIntermediateState::new(&mut graph, &eval, FULL_HD, SampleCount::One);
    state.skybox(&mut graph, false, SampleCount::One);
    assert!(graph.nodes.is_empty());
    state.skybox(&mut graph, true, SampleCount::One);
    assert_eq!(
        graph.nodes,
        vec![Node::Skybox {
            color: texture(1),
            resolve: None,
            depth: mip_zero(2),
            forward_uniform_bg: slot(1, DataKind::BindGroup),
            samples: SampleCount::One,
        }]
    );
}

#[test]
fn stages_follow_a_state_that_the_caller_has_changed() {
    let mut graph = RenderGraph::new();
    let eval = lights(&[]);
    let mut state = BaseRenderGraphIntermediateState::new(&mut graph, &eval, FULL_HD, SampleCount::One);
    let surface = graph.add_surface_texture();
    state.color = surface;
    state.pbr_forward_rendering_transparent(&mut graph, SampleCount::One);
    state.tonemapping(&mut graph, surface);
    match graph.nodes[0] {
        Node::Forward { color, routine, label, .. } => {
            assert_eq!(color, Some(surface));
            assert_eq!(routine, ForwardRoutine::Blend);
            assert_eq!(label.to_string(), "PBR Forward");
        }
        other => panic!("not a forward pass: {:?}", other),
    }
    assert_eq!(
        graph.nodes[1],
        Node::Tonemapping { src: surface, dst: surface, forward_uniform_bg: slot(1, DataKind::BindGroup) }
    );
}

#[test]
fn skinning_fills_the_buffers_that_every_upload_reads() {
    let graph = frame(&[64, 32], false, SampleCount::One);
    let buffers = slot(2, DataKind::PreSkinningBuffers);
    assert_eq!(graph.data[2], DataKind::PreSkinningBuffers);
    assert_eq!(graph.nodes[2], Node::Skinning { pre_skinning_buffers: buffers });
    let uploads: Vec<usize> =
        positions(&graph, |n| matches!(n, Node::ObjectUniformUpload { .. }));
    assert_eq!(uploads, vec![3, 4, 12]);
    for i in uploads {
        match graph.nodes[i] {
            Node::ObjectUniformUpload { pre_skinning_buffers, .. } => assert_eq!(pre_skinning_buffers, buffers),
            other => panic!("not an upload: {:?}", other),
        }
    }
}

#[test]
fn skinning_and_upload_stages_name_the_buffers_of_the_state() {
    let mut graph = RenderGraph::new();
    let eval = lights(&[128]);
    let mut state = BaseRenderGraphIntermediateState::new(&mut graph, &eval, FULL_HD, SampleCount::One);
    let other = graph.add_data(DataKind::PreSkinningBuffers);
    state.pre_skinning_buffers = other;
    state.skinning(&mut graph);
    state.shadow_object_uniform_upload(&mut graph, &eval);
    state.object_uniform_upload(&mut graph, FULL_HD, SampleCount::One);
    assert_eq!(
        graph.nodes,
        vec![
            Node::Skinning { pre_skinning_buffers: other },
            Node::ObjectUniformUpload {
                pre_skinning_buffers: other,
                camera: CameraIndex::Shadow(0),
                resolution: UVec2 { x: 128, y: 128 },
                samples: SampleCount::One,
                label: Label { prefix: "Shadow Culling S", index: Some(0) },
            },
            Node::ObjectUniformUpload {
                pre_skinning_buffers: other,
                camera: CameraIndex::Viewport,
                resolution: FULL_HD,
                samples: SampleCount::One,
                label: plain("Uniform Bake"),
            },
        ]
    );
}

#[test]
fn every_image_is_written_before_it_is_read() {
    for samples in [SampleCount::One, SampleCount::Four] {
        let graph = frame(&[64, 32], true, samples);
        let mut written: Vec<TargetResource> = Vec::new();
        for (i, node) in graph.nodes.iter().enumerate() {
            let listed = |handles: &[Option<RenderTargetHandle>]| -> Vec<TargetResource> {
                handles.iter().flatten().map(|handle| handle.resource).collect()
            };
            let (reads, writes) = match *node {
                Node::Clear { color, resolve, depth, .. } => (vec![], listed(&[color, resolve, Some(depth)])),
                Node::Culling { depth, .. } => (listed(&[Some(depth)]), vec![]),
                Node::Forward { color, resolve, depth, .. } => {
                    (listed(&[color, Some(depth)]), listed(&[color, resolve, Some(depth)]))
                }
                Node::HiZ { depth, .. } => {
                    (listed(&[Some(depth.rendering_target())]), listed(&[Some(depth.single_sample_mipped)]))
                }
                Node::Skybox { color, resolve, depth, .. } => {
                    (listed(&[Some(color), Some(depth)]), listed(&[Some(color), resolve, Some(depth)]))
                }
                Node::Tonemapping { src, dst, .. } => (listed(&[Some(src)]), listed(&[Some(dst)])),
                _ => (vec![], vec![]),
            };
            for image in reads {
                assert!(written.contains(&image), "pass {} reads {:?} before it is written", i, image);
            }
            written.extend(writes);
        }
        assert!(written.contains(&TargetResource::Surface));
    }
}

#[test]
fn each_set_of_draw_calls_has_one_writer() {
    let graph = frame(&[64, 32, 16], true, SampleCount::Four);
    for index in 4..8 {
        let handle = slot(index, DataKind::DrawCallSet);
        let writers =
            (0..graph.nodes.len()).filter(|i| matches!(graph.nodes[*i], Node::Culling { draw_calls, .. } if draw_calls == handle)).count();
        assert_eq!(writers, 1);
    }
}

#[test]
fn colour_is_drawn_only_after_the_upload_for_the_viewport() {
    let graph = frame(&[64, 32], true, SampleCount::Four);
    let upload = positions(&graph, is_viewport_upload);
    assert_eq!(upload, vec![12]);
    let drawing = positions(&graph, |n| {
        matches!(n, Node::Forward { color: Some(_), .. }) || matches!(n, Node::Skybox { .. })
    });
    assert_eq!(drawing, vec![13, 14, 17, 18, 19, 20]);
}

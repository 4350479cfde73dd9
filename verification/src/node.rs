//! The passes of a frame, as the sequencer declares them.

use vstd::prelude::*;

use crate::base::DepthTargets;
use crate::graph::{
    CameraIndex, DataHandle, RenderTargetHandle, SampleCount, TargetResource, UVec2, Vec4Bits,
};

verus! {

/// The decimal digit of `d`, for `d` below ten.
pub open spec fn digit(d: nat) -> char {
    seq!['0', '1', '2', '3', '4', '5', '6', '7', '8', '9'][d as int]
}

/// `n` in decimal, without sign or padding.
pub open spec fn decimal(n: nat) -> Seq<char>
    decreases n,
{
    if n < 10 {
        seq![digit(n)]
    } else {
        decimal(n / 10).push(digit(n % 10))
    }
}

/// Name of a pass: a fixed text, followed by a number where the pass is one
/// of a numbered family.
#[derive(Debug, Clone, Copy, PartialEq, Eq, Hash)]
pub struct Label {
    pub prefix: &'static str,
    pub index: Option<u32>,
}

/// Formats `prefix` followed by `index` with `format!`. `Display` writes a
/// `&str` as it is and a `u32` in decimal, which is what the contract says of
/// the text.
#[verifier::external_body]
fn numbered(prefix: &str, index: u32) -> (text: String)
    ensures
        text@ == prefix@ + decimal(index as nat),
{
    format!("{}{}", prefix, index)
}

impl Label {
    pub open spec fn plain(prefix: &'static str) -> Label {
        Label { prefix, index: None }
    }

    pub open spec fn indexed(prefix: &'static str, index: u32) -> Label {
        Label { prefix, index: Some(index) }
    }

    /// The text of the label.
    pub open spec fn text(self) -> Seq<char> {
        match self.index {
            None => self.prefix@,
            Some(index) => self.prefix@ + decimal(index as nat),
        }
    }

    /// The label written out.
    pub fn to_string(&self) -> (text: String)
        ensures
            text@ == self.text(),
    {
        match self.index {
            None => self.prefix.to_owned(),
            Some(index) => numbered(self.prefix, index),
        }
    }
}

/// The routine that draws a forward pass.
#[derive(Debug, Clone, Copy, PartialEq, Eq, Structural, Hash)]
pub enum ForwardRoutine {
    /// Depth only, opaque materials.
    OpaqueDepth,
    /// Depth only, materials with a cutout.
    CutoutDepth,
    Opaque,
    Cutout,
    Blend,
}

/// Colour attachment of a render pass.
#[derive(Debug, Clone, Copy, PartialEq, Eq, Structural, Hash)]
pub struct RenderPassTarget {
    pub color: RenderTargetHandle,
    /// Colour that the attachment is cleared with on its first use.
    pub clear: Vec4Bits,
    pub resolve: Option<RenderTargetHandle>,
}

/// Depth attachment of a render pass.
#[derive(Debug, Clone, Copy, PartialEq, Eq, Structural, Hash)]
pub struct RenderPassDepthTarget {
    pub target: RenderTargetHandle,
    /// Depth that the attachment is cleared with on its first use, as the
    /// bit pattern of a 32-bit float.
    pub depth_clear: Option<u32>,
    pub stencil_clear: Option<u32>,
}

/// The attachments of a render pass: at most one colour attachment and at
/// most one depth attachment.
#[derive(Debug, Clone, Copy, PartialEq, Eq, Structural, Hash)]
pub struct RenderPassTargets {
    pub target: Option<RenderPassTarget>,
    pub depth_stencil: Option<RenderPassDepthTarget>,
}

/// One declared pass, with the handles and settings it was given.
#[allow(inconsistent_fields)]
#[derive(Debug, Clone, Copy, PartialEq, Eq, Hash)]
pub enum Node {
    /// Draws nothing; its render pass carries the clear values.
    Clear {
        label: Label,
        color: Option<RenderTargetHandle>,
        resolve: Option<RenderTargetHandle>,
        depth: RenderTargetHandle,
        targets: RenderPassTargets,
    },
    /// Builds the uniforms that every shader of the frame reads, once for the
    /// shadow cameras and once for the viewport camera.
    FrameUniforms {
        shadow_uniform_bg: DataHandle,
        forward_uniform_bg: DataHandle,
        shadow_target: RenderTargetHandle,
        ambient: Vec4Bits,
        resolution: UVec2,
    },
    /// Skins every skinned object on the GPU and fills the buffers that
    /// the uploads of object uniforms take the skinned vertices from.
    Skinning { pre_skinning_buffers: DataHandle },
    /// Uploads the per-object uniforms of one camera, from the buffers that
    /// skinning has filled.
    ObjectUniformUpload {
        pre_skinning_buffers: DataHandle,
        camera: CameraIndex,
        resolution: UVec2,
        samples: SampleCount,
        label: Label,
    },
    /// Culls the objects of one camera against `depth` and writes the
    /// surviving draw calls to `draw_calls`.
    Culling { draw_calls: DataHandle, depth: RenderTargetHandle, camera: CameraIndex, label: Label },
    /// Draws one class of materials. Without a `culling_output_handle` it
    /// draws what the camera's culling found in the frame before; in the
    /// first frame there is no such set, and the pass draws nothing.
    Forward {
        routine: ForwardRoutine,
        whole_frame_uniform_bg: DataHandle,
        culling_output_handle: Option<DataHandle>,
        label: Label,
        samples: SampleCount,
        camera: CameraIndex,
        color: Option<RenderTargetHandle>,
        resolve: Option<RenderTargetHandle>,
        depth: RenderTargetHandle,
    },
    /// Builds the depth pyramid in the mip levels of the single-sample depth
    /// image.
    HiZ { depth: DepthTargets, resolution: UVec2 },
    Skybox {
        color: RenderTargetHandle,
        resolve: Option<RenderTargetHandle>,
        depth: RenderTargetHandle,
        forward_uniform_bg: DataHandle,
        samples: SampleCount,
    },
    /// Maps the colour image `src` onto `dst`.
    Tonemapping { src: RenderTargetHandle, dst: RenderTargetHandle, forward_uniform_bg: DataHandle },
}

/// `handle` is there and names `image`.
pub open spec fn names(handle: Option<RenderTargetHandle>, image: TargetResource) -> bool {
    handle matches Some(h) && h.resource == image
}

impl Node {
    /// The pass clears a colour image.
    pub open spec fn clears_color(self) -> bool {
        self matches Node::Clear { color, .. } && color.is_some()
    }

    /// The pass clears depth and no colour image.
    pub open spec fn clears_depth_only(self) -> bool {
        self matches Node::Clear { color, .. } && color.is_none()
    }

    /// The pass uploads the object uniforms of the viewport camera.
    pub open spec fn uploads_for_viewport(self) -> bool {
        self matches Node::ObjectUniformUpload { camera, .. } && camera == CameraIndex::Viewport
    }

    /// The pass uploads the object uniforms of the camera of a shadow light.
    pub open spec fn uploads_for_shadow(self) -> bool {
        self matches Node::ObjectUniformUpload { camera, .. } && camera is Shadow
    }

    /// The pass culls for the camera of a shadow light.
    pub open spec fn culls_for_shadow(self) -> bool {
        self matches Node::Culling { camera, .. } && camera is Shadow
    }

    /// The pass draws for the camera of a shadow light.
    pub open spec fn draws_for_shadow(self) -> bool {
        self matches Node::Forward { camera, .. } && camera is Shadow
    }

    /// The pass draws into a colour image.
    pub open spec fn draws_color(self) -> bool {
        match self {
            Node::Forward { color, .. } => color.is_some(),
            Node::Skybox { .. } => true,
            _ => false,
        }
    }

    /// The pass draws for the viewport camera with one of the forward
    /// routines.
    pub open spec fn draws_for_viewport(self) -> bool {
        self matches Node::Forward { camera, .. } && camera == CameraIndex::Viewport
    }

    /// The pass culls for the viewport camera.
    pub open spec fn culls_for_viewport(self) -> bool {
        self matches Node::Culling { camera, .. } && camera == CameraIndex::Viewport
    }

    /// The pass fills the data slot `handle`: the frame uniforms fill both
    /// sets of uniforms, skinning fills its buffers, a culling fills its set
    /// of draw calls.
    pub open spec fn writes_data(self, handle: DataHandle) -> bool {
        match self {
            Node::FrameUniforms { shadow_uniform_bg, forward_uniform_bg, .. } => handle == shadow_uniform_bg
                || handle == forward_uniform_bg,
            Node::Skinning { pre_skinning_buffers } => handle == pre_skinning_buffers,
            Node::Culling { draw_calls, .. } => handle == draw_calls,
            _ => false,
        }
    }

    /// The pass reads the data slot `handle`: its uniforms, the buffers of
    /// skinning, or the draw calls it draws from.
    pub open spec fn reads_data(self, handle: DataHandle) -> bool {
        match self {
            Node::ObjectUniformUpload { pre_skinning_buffers, .. } => handle == pre_skinning_buffers,
            Node::Forward { whole_frame_uniform_bg, culling_output_handle, .. } => handle
                == whole_frame_uniform_bg || culling_output_handle == Some(handle),
            Node::Skybox { forward_uniform_bg, .. } => handle == forward_uniform_bg,
            Node::Tonemapping { forward_uniform_bg, .. } => handle == forward_uniform_bg,
            _ => false,
        }
    }

    /// The pass writes to the image `image`: a clear pass and a drawing pass
    /// to each image they are given, the depth pyramid to the single-sample
    /// depth image, tonemapping to its destination.
    pub open spec fn writes_image(self, image: TargetResource) -> bool {
        match self {
            Node::Clear { color, resolve, depth, .. } => names(color, image) || names(resolve, image)
                || depth.resource == image,
            Node::Forward { color, resolve, depth, .. } => names(color, image) || names(resolve, image)
                || depth.resource == image,
            Node::HiZ { depth, .. } => depth.single_sample_mipped.resource == image,
            Node::Skybox { color, resolve, depth, .. } => color.resource == image || names(resolve, image)
                || depth.resource == image,
            Node::Tonemapping { dst, .. } => dst.resource == image,
            _ => false,
        }
    }

    /// The pass reads the image `image`: a culling the depth it tests
    /// against, a drawing pass the depth it tests against and the colour it
    /// draws over, the depth pyramid the depth that was drawn, tonemapping
    /// its source. The frame uniforms only refer to the shadow atlas, for
    /// the passes that sample it later.
    pub open spec fn reads_image(self, image: TargetResource) -> bool {
        match self {
            Node::Culling { depth, .. } => depth.resource == image,
            Node::Forward { color, depth, .. } => names(color, image) || depth.resource == image,
            Node::HiZ { depth, .. } => depth.rendering_target().resource == image,
            Node::Skybox { color, depth, .. } => color.resource == image || depth.resource == image,
            Node::Tonemapping { src, .. } => src.resource == image,
            _ => false,
        }
    }

    /// The set of draw calls that the pass writes, where it is a culling.
    pub open spec fn produced_draw_calls(self) -> Option<DataHandle> {
        match self {
            Node::Culling { draw_calls, .. } => Some(draw_calls),
            _ => None,
        }
    }

    /// The set of draw calls of this frame that the pass draws from, where it
    /// draws from one.
    pub open spec fn consumed_draw_calls(self) -> Option<DataHandle> {
        match self {
            Node::Forward { culling_output_handle, .. } => culling_output_handle,
            _ => None,
        }
    }
}

} // verus!

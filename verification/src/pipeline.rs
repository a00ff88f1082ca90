//! What the graphics pipeline is built from: the shader source, the layout of the
//! vertex data and of the colour uniform, and the triangle's index list.

use crate::error::RenderError;
use crate::gpu::{cast_to_bytes, holds_u16};
use vstd::prelude::*;

verus! {

/// Samples per pixel of every render target, fixed for the whole process.
pub const MSAA_SAMPLES: u32 = 1;

/// Number of vertices of the triangle.
pub const VERTEX_COUNT: u32 = 3;

/// 32-bit floats in a vertex position.
pub const POSITION_FLOATS: u32 = 3;

/// 32-bit floats in the colour uniform, one per channel.
pub const COLOR_FLOATS: u32 = 4;

/// Bytes in a 32-bit float.
pub const FLOAT_BYTES: u64 = 4;

/// Bind group in which the fragment stage finds the colour uniform.
pub const UNIFORM_GROUP: u32 = 0;

/// Binding of the colour uniform within its bind group.
pub const UNIFORM_BINDING: u32 = 0;

/// A programmable stage of the pipeline.
#[derive(Clone, Copy, Debug, PartialEq, Eq, Structural)]
pub enum ShaderStage {
    Vertex,
    Fragment,
}

/// One input of the vertex stage: `floats` consecutive 32-bit floats that start
/// `offset` bytes into each vertex.
#[derive(Clone, Copy, Debug, PartialEq, Eq, Structural)]
pub struct VertexAttribute {
    pub shader_location: u32,
    pub offset: u64,
    pub floats: u32,
}

impl VertexAttribute {
    /// First byte after the attribute within its vertex.
    pub open spec fn end(self) -> int {
        self.offset + self.floats * FLOAT_BYTES
    }
}

/// How vertices lie in the vertex buffer: `array_stride` bytes apart, each holding
/// the listed attributes. The buffer advances once per vertex.
#[derive(Debug, PartialEq, Eq)]
pub struct VertexLayout {
    pub array_stride: u64,
    pub attributes: Vec<VertexAttribute>,
}

/// The one uniform block of the pipeline.
#[derive(Clone, Copy, Debug, PartialEq, Eq, Structural)]
pub struct BindGroupLayout {
    pub binding: u32,
    /// The only stage that can read the block.
    pub visibility: ShaderStage,
    /// Size of the block in bytes.
    pub min_binding_size: u64,
}

/// What the pipeline object is compiled from.
#[derive(Debug, PartialEq, Eq)]
pub struct RenderPipeline {
    /// Source text of the module; the vertex and the fragment stage both come from it.
    pub shader: String,
    /// Pixel format of the colour output.
    pub format: wgpu::TextureFormat,
    pub vertex_layout: VertexLayout,
    /// Whether the colour output is blended over the target by its alpha.
    pub alpha_blending: bool,
    pub sample_count: u32,
}

/// Everything that is built from the shader source and replaced as a whole when
/// the source changes.
#[derive(Debug, PartialEq, Eq)]
pub struct PipelineBundle {
    pub render_pipeline: RenderPipeline,
    pub bind_group_layout: BindGroupLayout,
    /// Number of vertices in the vertex buffer.
    pub vertex_count: u32,
    /// The vertices to draw, three per triangle.
    pub indices: Vec<u16>,
    /// Contents of the index buffer: `indices` as they lie in memory.
    pub index_data: Vec<u8>,
    /// Number of indices to draw.
    pub num_indices: u32,
}

/// A pipeline bundle as a mathematical value.
pub struct PipelineBundleView {
    pub shader: Seq<char>,
    pub format: wgpu::TextureFormat,
    pub array_stride: u64,
    pub attributes: Seq<VertexAttribute>,
    pub alpha_blending: bool,
    pub sample_count: u32,
    pub bind_group_layout: BindGroupLayout,
    pub vertex_count: u32,
    pub indices: Seq<u16>,
    pub num_indices: u32,
}

impl View for PipelineBundle {
    type V = PipelineBundleView;

    open spec fn view(&self) -> PipelineBundleView {
        PipelineBundleView {
            shader: self.render_pipeline.shader@,
            format: self.render_pipeline.format,
            array_stride: self.render_pipeline.vertex_layout.array_stride,
            attributes: self.render_pipeline.vertex_layout.attributes@,
            alpha_blending: self.render_pipeline.alpha_blending,
            sample_count: self.render_pipeline.sample_count,
            bind_group_layout: self.bind_group_layout,
            vertex_count: self.vertex_count,
            indices: self.indices@,
            num_indices: self.num_indices,
        }
    }
}

impl PipelineBundleView {
    /// The parts of the bundle fit together: the attributes lie one after another
    /// and fill each vertex exactly, the uniform block has room for one colour,
    /// every index names a vertex, and the draw covers the whole index list.
    pub open spec fn well_formed(self) -> bool {
        &&& self.attributes.len() > 0
        &&& self.attributes[0].offset == 0
        &&& forall|i: int|
            0 < i < self.attributes.len() ==> (#[trigger] self.attributes[i]).offset
                == self.attributes[i - 1].end()
        &&& self.attributes.last().end() == self.array_stride
        &&& self.bind_group_layout.min_binding_size == COLOR_FLOATS * FLOAT_BYTES
        &&& self.num_indices == self.indices.len()
        &&& forall|i: int|
            0 <= i < self.indices.len() ==> (#[trigger] self.indices[i]) < self.vertex_count
    }
}

impl PipelineBundle {
    /// The index buffer holds the index list, two bytes to an index.
    pub open spec fn index_data_matches(&self) -> bool {
        &&& self.index_data@.len() == 2 * self.indices@.len()
        &&& forall|i: int|
            0 <= i < self.indices@.len() ==> holds_u16(
                self.index_data@[2 * i],
                self.index_data@[2 * i + 1],
                #[trigger] self.indices@[i],
            )
    }
}

/// The layout of the triangle's vertices: a position of three floats and nothing
/// else, tightly packed.
pub open spec fn vertex_attributes() -> Seq<VertexAttribute> {
    seq![VertexAttribute { shader_location: 0, offset: 0, floats: POSITION_FLOATS }]
}

/// The bundle built from the source `shader` for a colour output of `format`.
pub open spec fn bundle_for(shader: Seq<char>, format: wgpu::TextureFormat) -> PipelineBundleView {
    PipelineBundleView {
        shader,
        format,
        array_stride: 12,
        attributes: vertex_attributes(),
        alpha_blending: true,
        sample_count: MSAA_SAMPLES,
        bind_group_layout: BindGroupLayout {
            binding: UNIFORM_BINDING,
            visibility: ShaderStage::Fragment,
            min_binding_size: 16,
        },
        vertex_count: VERTEX_COUNT,
        indices: seq![0u16, 1u16, 2u16],
        num_indices: 3,
    }
}

/// Whatever the source and the format, the parts of the bundle built from them
/// fit together.
pub proof fn lemma_bundle_is_well_formed(shader: Seq<char>, format: wgpu::TextureFormat)
    ensures
        bundle_for(shader, format).well_formed(),
{
}

/// Describes how the vertex buffer is read.
pub fn vertex_desc() -> (layout: VertexLayout)
    ensures
        layout.attributes@ == vertex_attributes(),
        layout.array_stride == POSITION_FLOATS * FLOAT_BYTES,
{
    let position = VertexAttribute { shader_location: 0, offset: 0, floats: POSITION_FLOATS };
    let mut attributes: Vec<VertexAttribute> = Vec::new();
    attributes.push(position);
    assert(attributes@ =~= vertex_attributes());
    VertexLayout { array_stride: POSITION_FLOATS as u64 * FLOAT_BYTES, attributes }
}

/// The text of a shader source that was read, if it could be read.
pub open spec fn source_text(shader: Option<String>) -> Option<Seq<char>> {
    match shader {
        Some(text) => Some(text@),
        None => None,
    }
}

/// Why building from `shader` yields no bundle, if it yields none: the source
/// could not be read, or else the device did not accept what was built from it.
pub open spec fn build_error(shader: Option<Seq<char>>, accepted: bool) -> Option<RenderError> {
    if shader is None {
        Some(RenderError::ShaderUnreadable)
    } else if !accepted {
        Some(RenderError::PipelineRejected)
    } else {
        None
    }
}

/// Describes what the device is asked to build from a shader source for a colour
/// output of `swapchain_format`: the shader module, the pipeline with its
/// layouts, and the contents of the index buffer. Whether the source is a shader
/// at all is for the device to say.
pub fn pipeline_description(shader: String, swapchain_format: wgpu::TextureFormat) -> (bundle:
    PipelineBundle)
    ensures
        bundle@ == bundle_for(shader@, swapchain_format),
        bundle@.well_formed(),
        bundle.index_data_matches(),
{
    let mut indices: Vec<u16> = Vec::new();
    indices.push(0);
    indices.push(1);
    indices.push(2);
    assert(indices@ =~= seq![0u16, 1u16, 2u16]);
    let index_data = cast_to_bytes(&indices);
    let num_indices = indices.len() as u32;
    let render_pipeline = RenderPipeline {
        shader,
        format: swapchain_format,
        vertex_layout: vertex_desc(),
        alpha_blending: true,
        sample_count: MSAA_SAMPLES,
    };
    let bind_group_layout = BindGroupLayout {
        binding: UNIFORM_BINDING,
        visibility: ShaderStage::Fragment,
        min_binding_size: COLOR_FLOATS as u64 * FLOAT_BYTES,
    };
    PipelineBundle {
        render_pipeline,
        bind_group_layout,
        vertex_count: VERTEX_COUNT,
        indices,
        index_data,
        num_indices,
    }
}

/// Builds the bundle from the shader source that was read, `None` standing for
/// a source that could not be read. `accepted` is the device's answer to what
/// `pipeline_description` describes for this source and format: whether it
/// compiled the shader module and created the pipeline without an error. There
/// is a bundle only if the source was read and the device accepted it.
pub fn create_pipeline_and_buffers(
    shader: Option<String>,
    swapchain_format: wgpu::TextureFormat,
    accepted: bool,
) -> (built: Result<PipelineBundle, RenderError>)
    ensures
        match build_error(source_text(shader), accepted) {
            Some(error) => built is Err && built->Err_0 == error,
            None => {
                &&& built matches Ok(bundle)
                &&& bundle@ == bundle_for(shader->0@, swapchain_format)
                &&& bundle@.well_formed()
                &&& bundle.index_data_matches()
            },
        },
{
    match shader {
        None => Err(RenderError::ShaderUnreadable),
        Some(text) => if accepted {
            Ok(pipeline_description(text, swapchain_format))
        } else {
            Err(RenderError::PipelineRejected)
        },
    }
}

} // verus!

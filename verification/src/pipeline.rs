//! What the context asks of the GPU, as plain data: the binding of the camera's
//! uniform buffer, the usage of each buffer, the render pipeline, and the
//! commands of one frame.

use vstd::prelude::*;
use crate::geometry::{Vertex, VertexBufferLayout, VertexStepMode, vertex_attributes};

verus! {

/// Which resource limits to ask of the device.
#[derive(Clone, Copy, Debug, PartialEq, Eq, Structural)]
pub enum Limits {
    /// The full default limits.
    Default,
    /// The limits that a browser's WebGL2 backend can meet.
    DownlevelWebgl2,
}

/// The limits to ask for: the reduced ones in a browser, the default ones
/// elsewhere.
pub fn required_limits(in_browser: bool) -> (r: Limits)
    ensures
        r == if in_browser {
            Limits::DownlevelWebgl2
        } else {
            Limits::Default
        },
{
    if in_browser {
        Limits::DownlevelWebgl2
    } else {
        Limits::Default
    }
}

/// What a buffer may be used for.
#[derive(Clone, Copy, Debug, PartialEq, Eq, Structural)]
pub struct BufferUsages {
    pub vertex: bool,
    pub index: bool,
    pub uniform: bool,
    pub copy_dst: bool,
}

/// The three buffers of the context.
#[derive(Clone, Copy, Debug, PartialEq, Eq, Structural)]
pub enum BufferRole {
    Vertex,
    Index,
    CameraUniform,
}

impl BufferRole {
    /// The vertex buffer and the index buffer serve their one role and are never
    /// written again; the uniform buffer is read as a uniform and written by
    /// copies.
    pub open spec fn spec_usages(self) -> BufferUsages {
        match self {
            BufferRole::Vertex => BufferUsages {
                vertex: true,
                index: false,
                uniform: false,
                copy_dst: false,
            },
            BufferRole::Index => BufferUsages {
                vertex: false,
                index: true,
                uniform: false,
                copy_dst: false,
            },
            BufferRole::CameraUniform => BufferUsages {
                vertex: false,
                index: false,
                uniform: true,
                copy_dst: true,
            },
        }
    }

    pub fn usages(self) -> (r: BufferUsages)
        ensures
            r == self.spec_usages(),
    {
        match self {
            BufferRole::Vertex => BufferUsages {
                vertex: true,
                index: false,
                uniform: false,
                copy_dst: false,
            },
            BufferRole::Index => BufferUsages {
                vertex: false,
                index: true,
                uniform: false,
                copy_dst: false,
            },
            BufferRole::CameraUniform => BufferUsages {
                vertex: false,
                index: false,
                uniform: true,
                copy_dst: true,
            },
        }
    }
}

/// One entry of a bind group layout that binds a uniform buffer, with the
/// shader stages that see it.
#[derive(Clone, Copy, Debug, PartialEq, Eq, Structural)]
pub struct UniformBinding {
    pub binding: u32,
    pub vertex_stage: bool,
    pub fragment_stage: bool,
    pub compute_stage: bool,
    pub has_dynamic_offset: bool,
}

/// The binding of the camera's uniform buffer: binding 0, seen by the vertex
/// stage only, without a dynamic offset.
pub open spec fn camera_binding() -> UniformBinding {
    UniformBinding {
        binding: 0,
        vertex_stage: true,
        fragment_stage: false,
        compute_stage: false,
        has_dynamic_offset: false,
    }
}

pub fn camera_bind_group_layout() -> (r: Vec<UniformBinding>)
    ensures
        r@ == seq![camera_binding()],
{
    let entry = UniformBinding {
        binding: 0,
        vertex_stage: true,
        fragment_stage: false,
        compute_stage: false,
        has_dynamic_offset: false,
    };
    vec![entry]
}

#[derive(Clone, Copy, Debug, PartialEq, Eq, Structural)]
pub enum PrimitiveTopology {
    PointList,
    LineList,
    LineStrip,
    TriangleList,
    TriangleStrip,
}

#[derive(Clone, Copy, Debug, PartialEq, Eq, Structural)]
pub enum FrontFace {
    Ccw,
    Cw,
}

#[derive(Clone, Copy, Debug, PartialEq, Eq, Structural)]
pub enum Face {
    Front,
    Back,
}

#[derive(Clone, Copy, Debug, PartialEq, Eq, Structural)]
pub enum PolygonMode {
    Fill,
    Line,
    Point,
}

#[derive(Clone, Copy, Debug, PartialEq, Eq, Structural)]
pub enum IndexFormat {
    Uint16,
    Uint32,
}

/// How primitives are assembled and rasterised.
#[derive(Clone, Copy, Debug, PartialEq, Eq)]
pub struct PrimitiveState {
    pub topology: PrimitiveTopology,
    pub strip_index_format: Option<IndexFormat>,
    pub front_face: FrontFace,
    pub cull_mode: Option<Face>,
    pub polygon_mode: PolygonMode,
    pub unclipped_depth: bool,
    pub conservative: bool,
}

#[derive(Clone, Copy, Debug, PartialEq, Eq, Structural)]
pub struct MultisampleState {
    pub count: u32,
    pub mask: u64,
    pub alpha_to_coverage_enabled: bool,
}

/// The render pipeline. Its colour target replaces what is there and writes all
/// channels.
#[derive(Clone, Debug, PartialEq, Eq)]
pub struct RenderPipelineDescriptor {
    /// The layout of the one vertex buffer.
    pub vertex_buffer: VertexBufferLayout,
    /// The format of the colour target, by its place in the surface's list.
    pub target_format: usize,
    pub primitive: PrimitiveState,
    /// Whether the pipeline has a depth or stencil attachment.
    pub depth_stencil: bool,
    pub multisample: MultisampleState,
    /// The number of views of a multiview pass, if it is one.
    pub multiview: Option<u32>,
}

/// Triangle lists, counter-clockwise front faces, back faces culled, solid fill.
pub open spec fn solid_triangles() -> PrimitiveState {
    PrimitiveState {
        topology: PrimitiveTopology::TriangleList,
        strip_index_format: None,
        front_face: FrontFace::Ccw,
        cull_mode: Some(Face::Back),
        polygon_mode: PolygonMode::Fill,
        unclipped_depth: false,
        conservative: false,
    }
}

/// One sample for each pixel, all of them written.
pub open spec fn single_sample() -> MultisampleState {
    MultisampleState { count: 1, mask: 0xffff_ffff_ffff_ffff, alpha_to_coverage_enabled: false }
}

impl RenderPipelineDescriptor {
    /// The pipeline that draws the mesh to a target of the given format.
    pub fn new(target_format: usize) -> (r: RenderPipelineDescriptor)
        ensures
            r.vertex_buffer.array_stride == Vertex::spec_stride(),
            r.vertex_buffer.step_mode == VertexStepMode::Vertex,
            r.vertex_buffer.attributes@ == vertex_attributes(),
            r.vertex_buffer.packed(),
            r.target_format == target_format,
            r.primitive == solid_triangles(),
            !r.depth_stencil,
            r.multisample == single_sample(),
            r.multiview.is_none(),
    {
        RenderPipelineDescriptor {
            vertex_buffer: Vertex::desc(),
            target_format,
            primitive: PrimitiveState {
                topology: PrimitiveTopology::TriangleList,
                strip_index_format: None,
                front_face: FrontFace::Ccw,
                cull_mode: Some(Face::Back),
                polygon_mode: PolygonMode::Fill,
                unclipped_depth: false,
                conservative: false,
            },
            depth_stencil: false,
            multisample: MultisampleState {
                count: 1,
                mask: 0xffff_ffff_ffff_ffff,
                alpha_to_coverage_enabled: false,
            },
            multiview: None,
        }
    }
}

/// The name of the shader's vertex entry point.
pub fn vertex_entry_point() -> (r: &'static str)
    ensures
        r@ == "vs_main"@,
{
    "vs_main"
}

/// The name of the shader's fragment entry point.
pub fn fragment_entry_point() -> (r: &'static str)
    ensures
        r@ == "fs_main"@,
{
    "fs_main"
}

/// A colour of four double-precision channels, each held by its IEEE-754 bit
/// pattern.
#[derive(Clone, Copy, Debug, PartialEq, Eq, Structural)]
pub struct Color {
    pub r: u64,
    pub g: u64,
    pub b: u64,
    pub a: u64,
}

/// The background: red 0.1, green 0.2, blue 0.3, opaque.
pub open spec fn background() -> Color {
    Color {
        r: 0x3fb9_9999_9999_999a,
        g: 0x3fc9_9999_9999_999a,
        b: 0x3fd3_3333_3333_3333,
        a: 0x3ff0_0000_0000_0000,
    }
}

/// One command of a frame.
#[derive(Clone, Copy, Debug, PartialEq, Eq, Structural)]
pub enum Command {
    /// Begin a render pass on the acquired image, cleared to `clear` and stored.
    BeginRenderPass { clear: Color },
    /// Bind the render pipeline.
    SetPipeline,
    /// Bind the camera's bind group at `index`.
    SetBindGroup { index: u32 },
    /// Bind the whole vertex buffer at `slot`.
    SetVertexBuffer { slot: u32 },
    /// Bind the whole index buffer with indices of `format`.
    SetIndexBuffer { format: IndexFormat },
    /// Draw `index_count` indices from `first_index` on, `instance_count` times.
    DrawIndexed {
        first_index: u32,
        index_count: u32,
        base_vertex: i32,
        first_instance: u32,
        instance_count: u32,
    },
    /// End the render pass.
    EndRenderPass,
    /// Submit the recorded commands to the queue.
    Submit,
    /// Present the acquired image.
    Present,
}

/// The commands of one frame: a single render pass that clears to the
/// background and draws all `index_count` indices once, then submission and
/// presentation.
pub open spec fn frame_commands(index_count: u32) -> Seq<Command> {
    seq![
        Command::BeginRenderPass { clear: background() },
        Command::SetPipeline,
        Command::SetBindGroup { index: 0 },
        Command::SetVertexBuffer { slot: 0 },
        Command::SetIndexBuffer { format: IndexFormat::Uint16 },
        Command::DrawIndexed {
            first_index: 0,
            index_count,
            base_vertex: 0,
            first_instance: 0,
            instance_count: 1,
        },
        Command::EndRenderPass,
        Command::Submit,
        Command::Present,
    ]
}

/// Records the commands of one frame that draws `index_count` indices.
pub fn record_frame(index_count: u32) -> (r: Vec<Command>)
    ensures
        r@ == frame_commands(index_count),
{
    let clear = Color {
        r: 0x3fb9_9999_9999_999a,
        g: 0x3fc9_9999_9999_999a,
        b: 0x3fd3_3333_3333_3333,
        a: 0x3ff0_0000_0000_0000,
    };
    let r = vec![
        Command::BeginRenderPass { clear },
        Command::SetPipeline,
        Command::SetBindGroup { index: 0 },
        Command::SetVertexBuffer { slot: 0 },
        Command::SetIndexBuffer { format: IndexFormat::Uint16 },
        Command::DrawIndexed {
            first_index: 0,
            index_count,
            base_vertex: 0,
            first_instance: 0,
            instance_count: 1,
        },
        Command::EndRenderPass,
        Command::Submit,
        Command::Present,
    ];
    assert(r@ =~= frame_commands(index_count));
    r
}

} // verus!

//! The two passes of deferred shading and the pipelines they run: a
//! geometry pass that renders the scene's meshes into the intermediate
//! attachments, and a light pass that reads them back and fills the image
//! to present with one quad.

use crate::context::{Context, ContextModel};
use crate::frame::{Attachment, Bound, Draw, Pass, RenderTarget};
use crate::gbuffer::GBuffer;
use crate::pipeline::{
    is_vertex_layout, vertex_layout, BindingKind, PipelineError, RenderPipelineDesc,
    ShaderBinding, ShaderFunction, GLOBALS_SIZE,
};
use crate::resources::{
    BlendState, BufferPiece, ColorTargetState, CompareFunction, DepthStencilState, Face,
    FinishOp, FrontFace, InitOp, PrimitiveState, PrimitiveTopology, RenderPipeline, Shader,
    TextureColor, TextureFormat,
};
use crate::upload::Mesh;
use vstd::prelude::*;

verus! {

/// Number of vertices of the quad that fills the screen: two triangles.
pub const QUAD_VERTICES: u32 = 6;

/// Triangles wound counter-clockwise, with the side `cull` left out.
pub open spec fn triangle_list(cull: Option<Face>) -> PrimitiveState {
    PrimitiveState {
        topology: PrimitiveTopology::TriangleList,
        front_face: FrontFace::Ccw,
        cull_mode: cull,
        unclipped_depth: false,
        wireframe: false,
    }
}

/// The pipeline of the geometry pass: it reads vertices of position and
/// normal and the uniform block, leaves out back faces, tests and writes
/// depth with less-than, and writes position and normal, unblended, into two
/// targets of four 32-bit floats.
pub open spec fn is_geometry_pipeline(desc: RenderPipelineDesc, shader: Shader) -> bool {
    &&& desc.name == "geometry"
    &&& desc.data_layout@.len() == 1
    &&& desc.data_layout@[0].name == "globals"
    &&& desc.data_layout@[0].kind == (BindingKind::Plain { size: GLOBALS_SIZE })
    &&& desc.vertex == (ShaderFunction { shader, entry_point: "vs_main" })
    &&& is_vertex_layout(desc.vertex_layout)
    &&& !desc.instanced
    &&& desc.primitive == triangle_list(Some(Face::Back))
    &&& desc.depth_stencil == Some(
        DepthStencilState {
            format: TextureFormat::Depth32Float,
            depth_write_enabled: true,
            depth_compare: CompareFunction::Less,
        },
    )
    &&& desc.fragment == (ShaderFunction { shader, entry_point: "fs_main" })
    &&& desc.color_targets@.len() == 2
    &&& desc.color_targets@[0] == (ColorTargetState {
        format: TextureFormat::Rgba32Float,
        blend: None,
    })
    &&& desc.color_targets@[1] == (ColorTargetState {
        format: TextureFormat::Rgba32Float,
        blend: None,
    })
}

/// The pipeline of the light pass: it reads the quad's vertices, the
/// uniform block and the three intermediate attachments, leaves out no
/// face, tests no depth, and replaces what the one target of the surface's
/// format held.
pub open spec fn is_light_pipeline(
    desc: RenderPipelineDesc,
    shader: Shader,
    surface_format: TextureFormat,
) -> bool {
    &&& desc.name == "light"
    &&& desc.data_layout@.len() == 4
    &&& desc.data_layout@[0].name == "globals"
    &&& desc.data_layout@[0].kind == (BindingKind::Plain { size: GLOBALS_SIZE })
    &&& desc.data_layout@[1].name == "depth_view"
    &&& desc.data_layout@[1].kind == BindingKind::Sampled
    &&& desc.data_layout@[2].name == "pos_view"
    &&& desc.data_layout@[2].kind == BindingKind::Sampled
    &&& desc.data_layout@[3].name == "normal_view"
    &&& desc.data_layout@[3].kind == BindingKind::Sampled
    &&& desc.vertex == (ShaderFunction { shader, entry_point: "vs_main" })
    &&& is_vertex_layout(desc.vertex_layout)
    &&& !desc.instanced
    &&& desc.primitive == triangle_list(None)
    &&& desc.depth_stencil == None::<DepthStencilState>
    &&& desc.fragment == (ShaderFunction { shader, entry_point: "fs_main" })
    &&& desc.color_targets@.len() == 1
    &&& desc.color_targets@[0] == (ColorTargetState {
        format: surface_format,
        blend: Some(BlendState::Replace),
    })
}

/// Describes the pipeline of the geometry pass, with its functions in
/// `shader`.
pub fn geometry_pipeline_desc(shader: Shader) -> (desc: RenderPipelineDesc)
    ensures
        is_geometry_pipeline(desc, shader),
{
    let mut data_layout: Vec<ShaderBinding> = Vec::new();
    data_layout.push(
        ShaderBinding { name: "globals", kind: BindingKind::Plain { size: GLOBALS_SIZE } },
    );
    let mut color_targets: Vec<ColorTargetState> = Vec::new();
    color_targets.push(ColorTargetState { format: TextureFormat::Rgba32Float, blend: None });
    color_targets.push(ColorTargetState { format: TextureFormat::Rgba32Float, blend: None });
    RenderPipelineDesc {
        name: "geometry",
        data_layout,
        vertex: ShaderFunction { shader, entry_point: "vs_main" },
        vertex_layout: vertex_layout(),
        instanced: false,
        primitive: PrimitiveState {
            topology: PrimitiveTopology::TriangleList,
            front_face: FrontFace::Ccw,
            cull_mode: Some(Face::Back),
            unclipped_depth: false,
            wireframe: false,
        },
        depth_stencil: Some(
            DepthStencilState {
                format: TextureFormat::Depth32Float,
                depth_write_enabled: true,
                depth_compare: CompareFunction::Less,
            },
        ),
        fragment: ShaderFunction { shader, entry_point: "fs_main" },
        color_targets,
    }
}

/// Describes the pipeline of the light pass, with its functions in `shader`
/// and its target in the surface's format.
pub fn light_pipeline_desc(shader: Shader, surface_format: TextureFormat) -> (desc:
    RenderPipelineDesc)
    ensures
        is_light_pipeline(desc, shader, surface_format),
{
    let mut data_layout: Vec<ShaderBinding> = Vec::new();
    data_layout.push(
        ShaderBinding { name: "globals", kind: BindingKind::Plain { size: GLOBALS_SIZE } },
    );
    data_layout.push(ShaderBinding { name: "depth_view", kind: BindingKind::Sampled });
    data_layout.push(ShaderBinding { name: "pos_view", kind: BindingKind::Sampled });
    data_layout.push(ShaderBinding { name: "normal_view", kind: BindingKind::Sampled });
    let mut color_targets: Vec<ColorTargetState> = Vec::new();
    color_targets.push(
        ColorTargetState { format: surface_format, blend: Some(BlendState::Replace) },
    );
    RenderPipelineDesc {
        name: "light",
        data_layout,
        vertex: ShaderFunction { shader, entry_point: "vs_main" },
        vertex_layout: vertex_layout(),
        instanced: false,
        primitive: PrimitiveState {
            topology: PrimitiveTopology::TriangleList,
            front_face: FrontFace::Ccw,
            cull_mode: None,
            unclipped_depth: false,
            wireframe: false,
        },
        depth_stencil: None,
        fragment: ShaderFunction { shader, entry_point: "fs_main" },
        color_targets,
    }
}

/// The pipelines of the two passes.
#[derive(Clone, Copy, Debug, PartialEq)]
pub struct Pipelines {
    /// The pipeline of the geometry pass.
    pub fill_gbuffer: RenderPipeline,
    /// The pipeline of the light pass.
    pub deferred: RenderPipeline,
}

impl Pipelines {
    /// Enters the pipelines of the two passes, the geometry pass's first,
    /// with their functions in the shaders given. Where the surface's format
    /// holds depth the light pass's pipeline is refused, its one colour
    /// target being at fault; the geometry pass's pipeline stays entered.
    pub fn new(
        ctx: &mut Context,
        geometry_shader: Shader,
        light_shader: Shader,
        surface_format: TextureFormat,
    ) -> (pipelines: Result<Pipelines, PipelineError>)
        requires
            old(ctx).wf(),
            old(ctx)@.has_shader(geometry_shader),
            old(ctx)@.has_shader(light_shader),
        ensures
            final(ctx).wf(),
            pipelines is Ok <==> !surface_format.depth(),
            final(ctx)@.pipelines.len() == old(ctx)@.pipelines.len() + (if surface_format.depth() {
                1nat
            } else {
                2nat
            }),
            final(ctx)@ == (ContextModel { pipelines: final(ctx)@.pipelines, ..old(ctx)@ }),
            forall|p: int|
                0 <= p < old(ctx)@.pipelines.len() ==> final(ctx)@.pipelines[p] == old(
                    ctx,
                )@.pipelines[p],
            is_geometry_pipeline(
                final(ctx)@.pipelines[old(ctx)@.pipelines.len() as int],
                geometry_shader,
            ),
            match pipelines {
                Ok(made) => {
                    &&& made.fill_gbuffer.id == old(ctx)@.pipelines.len()
                    &&& made.deferred.id == old(ctx)@.pipelines.len() + 1
                    &&& is_light_pipeline(
                        final(ctx)@.pipelines[made.deferred.id as int],
                        light_shader,
                        surface_format,
                    )
                },
                Err(e) => e == PipelineError::ColorTargetHoldsDepth(0),
            },
    {
        let fill_gbuffer = match ctx.create_render_pipeline(
            geometry_pipeline_desc(geometry_shader),
        ) {
            Ok(pipeline) => pipeline,
            Err(e) => {
                assert(false);
                return Err(e);
            },
        };
        let deferred = match ctx.create_render_pipeline(
            light_pipeline_desc(light_shader, surface_format),
        ) {
            Ok(pipeline) => pipeline,
            Err(e) => {
                return Err(e);
            },
        };
        Ok(Pipelines { fill_gbuffer, deferred })
    }
}

/// An attachment that is cleared to white when the pass begins and kept
/// when it ends.
pub open spec fn cleared(view: Attachment) -> RenderTarget {
    RenderTarget { view, init_op: InitOp::Clear(TextureColor::White), finish_op: FinishOp::Store }
}

/// The draw of one mesh: all of its vertices, through its index buffer
/// where it has one, in one instance.
pub open spec fn draw_of(mesh: Mesh) -> Draw {
    Draw {
        vertex_buf: mesh.vertex_buf,
        index_buf: mesh.index_buf,
        vertex_count: mesh.num_vertices as u32,
        index_count: mesh.num_indices as u32,
        instance_count: 1,
    }
}

/// The draws of the meshes, one for each, in order.
pub open spec fn mesh_draws(meshes: Seq<Mesh>) -> Seq<Draw> {
    Seq::new(meshes.len(), |i: int| draw_of(meshes[i]))
}

/// The draw of the quad that fills the screen.
pub open spec fn quad_draw(quad: BufferPiece) -> Draw {
    Draw {
        vertex_buf: quad,
        index_buf: None,
        vertex_count: QUAD_VERTICES,
        index_count: 0,
        instance_count: 1,
    }
}

/// `pass` is the geometry pass: it clears and keeps the position and normal
/// attachments and the depth attachment, binds the uniform block, and draws
/// each mesh once.
pub open spec fn is_geometry_pass(
    pass: Pass,
    pipeline: RenderPipeline,
    g_buffer: GBuffer,
    meshes: Seq<Mesh>,
) -> bool {
    &&& pass.name == "geometry"
    &&& pass.colors@ == seq![
        cleared(Attachment::View(g_buffer.pos_view)),
        cleared(Attachment::View(g_buffer.normal_view)),
    ]
    &&& pass.depth_stencil == Some(cleared(Attachment::View(g_buffer.depth_view)))
    &&& pass.pipeline == pipeline
    &&& pass.data@ == seq![Bound::Globals]
    &&& pass.draws@ == mesh_draws(meshes)
}

/// `pass` is the light pass: it clears and keeps the image to present,
/// binds the uniform block and the three intermediate attachments with
/// their samplers, and draws the quad.
pub open spec fn is_light_pass(
    pass: Pass,
    pipeline: RenderPipeline,
    g_buffer: GBuffer,
    quad: BufferPiece,
) -> bool {
    &&& pass.name == "light"
    &&& pass.colors@ == seq![cleared(Attachment::Frame)]
    &&& pass.depth_stencil == None::<RenderTarget>
    &&& pass.pipeline == pipeline
    &&& pass.data@ == seq![
        Bound::Globals,
        Bound::Sampled { view: g_buffer.depth_view, sampler: g_buffer.depth_sampler },
        Bound::Sampled { view: g_buffer.pos_view, sampler: g_buffer.pos_sampler },
        Bound::Sampled { view: g_buffer.normal_view, sampler: g_buffer.normal_sampler },
    ]
    &&& pass.draws@ == seq![quad_draw(quad)]
}

fn clear_and_store(view: Attachment) -> (target: RenderTarget)
    ensures
        target == cleared(view),
{
    RenderTarget { view, init_op: InitOp::Clear(TextureColor::White), finish_op: FinishOp::Store }
}

/// Records the geometry pass over `meshes`.
pub fn geometry_pass(pipeline: RenderPipeline, g_buffer: &GBuffer, meshes: &Vec<Mesh>) -> (pass:
    Pass)
    requires
        forall|i: int|
            0 <= i < meshes@.len() ==> (#[trigger] meshes@[i]).num_vertices <= u32::MAX
                && meshes@[i].num_indices <= u32::MAX,
    ensures
        is_geometry_pass(pass, pipeline, *g_buffer, meshes@),
{
    let mut colors: Vec<RenderTarget> = Vec::new();
    colors.push(clear_and_store(Attachment::View(g_buffer.pos_view)));
    colors.push(clear_and_store(Attachment::View(g_buffer.normal_view)));
    let mut data: Vec<Bound> = Vec::new();
    data.push(Bound::Globals);
    let mut draws: Vec<Draw> = Vec::new();
    let mut i: usize = 0;
    while i < meshes.len()
        invariant
            i <= meshes@.len(),
            forall|k: int|
                0 <= k < meshes@.len() ==> (#[trigger] meshes@[k]).num_vertices <= u32::MAX
                    && meshes@[k].num_indices <= u32::MAX,
            draws@.len() == i,
            forall|k: int| 0 <= k < i ==> draws@[k] == draw_of(meshes@[k]),
        decreases meshes@.len() - i,
    {
        let mesh = meshes[i];
        draws.push(
            Draw {
                vertex_buf: mesh.vertex_buf,
                index_buf: mesh.index_buf,
                vertex_count: mesh.num_vertices as u32,
                index_count: mesh.num_indices as u32,
                instance_count: 1,
            },
        );
        i = i + 1;
    }
    proof {
        assert(draws@ =~= mesh_draws(meshes@));
        assert(colors@ =~= seq![
            cleared(Attachment::View(g_buffer.pos_view)),
            cleared(Attachment::View(g_buffer.normal_view)),
        ]);
        assert(data@ =~= seq![Bound::Globals]);
    }
    Pass {
        name: "geometry",
        colors,
        depth_stencil: Some(clear_and_store(Attachment::View(g_buffer.depth_view))),
        pipeline,
        data,
        draws,
    }
}

/// Records the light pass over the quad `quad`.
pub fn light_pass(pipeline: RenderPipeline, g_buffer: &GBuffer, quad: BufferPiece) -> (pass: Pass)
    ensures
        is_light_pass(pass, pipeline, *g_buffer, quad),
{
    let mut colors: Vec<RenderTarget> = Vec::new();
    colors.push(clear_and_store(Attachment::Frame));
    let mut data: Vec<Bound> = Vec::new();
    data.push(Bound::Globals);
    data.push(Bound::Sampled { view: g_buffer.depth_view, sampler: g_buffer.depth_sampler });
    data.push(Bound::Sampled { view: g_buffer.pos_view, sampler: g_buffer.pos_sampler });
    data.push(Bound::Sampled { view: g_buffer.normal_view, sampler: g_buffer.normal_sampler });
    let mut draws: Vec<Draw> = Vec::new();
    draws.push(
        Draw {
            vertex_buf: quad,
            index_buf: None,
            vertex_count: QUAD_VERTICES,
            index_count: 0,
            instance_count: 1,
        },
    );
    proof {
        assert(colors@ =~= seq![cleared(Attachment::Frame)]);
        assert(data@ =~= seq![
            Bound::Globals,
            Bound::Sampled { view: g_buffer.depth_view, sampler: g_buffer.depth_sampler },
            Bound::Sampled { view: g_buffer.pos_view, sampler: g_buffer.pos_sampler },
            Bound::Sampled { view: g_buffer.normal_view, sampler: g_buffer.normal_sampler },
        ]);
        assert(draws@ =~= seq![quad_draw(quad)]);
    }
    Pass { name: "light", colors, depth_stencil: None, pipeline, data, draws }
}

/// The corners of the quad that fills the screen, as two triangles: each
/// corner by its three coordinates, every one of them -1, 0 or 1.
pub fn screen_quad_corners() -> (corners: [[i8; 3]; 6])
    ensures
        corners@ == seq![
            [-1i8, -1i8, 0i8],
            [1i8, -1i8, 0i8],
            [-1i8, 1i8, 0i8],
            [1i8, -1i8, 0i8],
            [1i8, 1i8, 0i8],
            [-1i8, 1i8, 0i8],
        ],
{
    let corners: [[i8; 3]; 6] = [
        [-1i8, -1i8, 0i8],
        [1i8, -1i8, 0i8],
        [-1i8, 1i8, 0i8],
        [1i8, -1i8, 0i8],
        [1i8, 1i8, 0i8],
        [-1i8, 1i8, 0i8],
    ];
    assert(corners@ =~= seq![
        [-1i8, -1i8, 0i8],
        [1i8, -1i8, 0i8],
        [-1i8, 1i8, 0i8],
        [1i8, -1i8, 0i8],
        [1i8, 1i8, 0i8],
        [-1i8, 1i8, 0i8],
    ]);
    corners
}

} // verus!

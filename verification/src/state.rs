//! The renderer's state: the resources that are created once at startup,
//! and the frame protocol that runs over them.
//!
//! A frame goes through five phases. The caller does the work that each
//! phase asks for on the device and reports what came of it; the state
//! decides what is due next. After a submission nothing else is started
//! until the submission has been waited for, so at most one frame is in
//! flight and no resource is touched while the device may still read it.

use crate::context::{buffer_ids, records_after_submit, Context, ContextModel};
use crate::deferred::{
    geometry_pass, is_geometry_pass, is_geometry_pipeline, is_light_pass, is_light_pipeline,
    light_pass, mesh_draws, quad_draw, Pipelines, QUAD_VERTICES,
};
use crate::frame::{
    buffers_of_draws, buffers_of_passes, collect_buffers, pass_valid, piece_holds, Pass,
};
use crate::gbuffer::{
    attachment_texture, attachment_view, gbuffer_at, nearest_sampler, with_gbuffer, GBuffer,
};
use crate::input::{motion_of, Key, Motion, RetainedInput};
use crate::mesh::Vertex;
use crate::pipeline::{PipelineError, VERTEX_STRIDE};
use crate::resources::{
    Buffer, BufferPiece, CommandEncoderDesc, CompareFunction, DisplaySync, Extent,
    RenderPipeline, SamplerDesc, Shader, SurfaceConfig, SyncPoint, TextureDesc,
    TextureDimension, TextureFormat, TextureUsage, TextureView, TextureViewDesc, ViewDimension,
};
use crate::timeline::{submissions, synchronized, waited, well_numbered, DeviceOp};
use crate::upload::{filled_buffer, upload_items, upload_vertices, Mesh};
use vstd::prelude::*;

verus! {

/// Path of the source of the geometry pass's shader.
pub const GEOMETRY_SHADER_PATH: &'static str = "src/shader.wgsl";

/// Path of the source of the light pass's shader.
pub const LIGHT_SHADER_PATH: &'static str = "src/light_shader.wgsl";

/// Time to wait for a submission, in milliseconds: as long as it takes.
pub const WAIT_FOREVER_MS: u32 = 0xffff_ffff;

/// Where a frame stands.
#[derive(Clone, Copy, Debug, PartialEq, Eq, Structural)]
pub enum FramePhase {
    /// No frame is under way.
    Idle,
    /// The image to present was acquired.
    Acquired,
    /// The frame's passes were recorded.
    Encoding,
    /// The frame was submitted and may be running on the device.
    Submitted,
    /// The submission was waited for.
    Waited,
}

/// What came of the work on the device.
#[derive(Clone, Copy, Debug, PartialEq, Eq, Structural)]
pub enum FrameEvent {
    /// The window asks for a new frame.
    Redraw,
    /// The image to present was acquired.
    ImageAcquired,
    /// No image could be acquired.
    AcquireFailed,
    /// The passes were recorded.
    Encoded,
    /// The image was marked for presentation and the frame submitted.
    Submitted,
    /// The device finished the submission.
    Signaled,
    /// The wait ended before the device finished.
    TimedOut,
}

/// The work on the device that is due.
#[derive(Clone, Debug, PartialEq)]
pub enum FrameWork {
    /// Acquire the image to present.
    AcquireImage,
    /// Begin a command sequence, make the acquired image renderable, and
    /// record these passes.
    Encode(Vec<Pass>),
    /// Mark the image for presentation and submit the sequence.
    PresentAndSubmit,
    /// Wait for the submission, at most this many milliseconds.
    WaitFor { point: SyncPoint, timeout_ms: u32 },
    /// Nothing until the next frame is asked for.
    Rest,
}

/// The renderer's state.
pub struct State {
    geometry_pipeline: RenderPipeline,
    light_pipeline: RenderPipeline,
    command_encoder: CommandEncoderDesc,
    ctx: Context,
    surface: SurfaceConfig,
    surface_format: TextureFormat,
    prev_sync_point: Option<SyncPoint>,
    meshes: Vec<Mesh>,
    pub retained_input: RetainedInput,
    g_buffer: GBuffer,
    screen_quad_buf: BufferPiece,
    phase: FramePhase,
}

/// What a `State` stands for.
pub struct StateModel {
    pub geometry_pipeline: RenderPipeline,
    pub light_pipeline: RenderPipeline,
    pub command_encoder: CommandEncoderDesc,
    pub ctx: ContextModel,
    pub surface: SurfaceConfig,
    pub surface_format: TextureFormat,
    /// The sync point of the frame in flight, if one is.
    pub prev_sync_point: Option<SyncPoint>,
    pub meshes: Seq<Mesh>,
    pub held_keys: Set<Key>,
    pub g_buffer: GBuffer,
    pub screen_quad_buf: BufferPiece,
    pub phase: FramePhase,
}

impl View for State {
    type V = StateModel;

    closed spec fn view(&self) -> StateModel {
        StateModel {
            geometry_pipeline: self.geometry_pipeline,
            light_pipeline: self.light_pipeline,
            command_encoder: self.command_encoder,
            ctx: self.ctx@,
            surface: self.surface,
            surface_format: self.surface_format,
            prev_sync_point: self.prev_sync_point,
            meshes: self.meshes@,
            held_keys: self.retained_input.held_keys@,
            g_buffer: self.g_buffer,
            screen_quad_buf: self.screen_quad_buf,
            phase: self.phase,
        }
    }
}

/// The phase after `event` came in during `phase`. An event that does not
/// belong to the phase leaves the phase as it is.
pub open spec fn next_phase(phase: FramePhase, event: FrameEvent) -> FramePhase {
    match (phase, event) {
        (FramePhase::Idle, FrameEvent::ImageAcquired) => FramePhase::Acquired,
        (FramePhase::Acquired, FrameEvent::Encoded) => FramePhase::Encoding,
        (FramePhase::Encoding, FrameEvent::Submitted) => FramePhase::Submitted,
        (FramePhase::Submitted, FrameEvent::Signaled) => FramePhase::Waited,
        (FramePhase::Waited, FrameEvent::Redraw) => FramePhase::Idle,
        _ => phase,
    }
}

/// `view` is live, has the format `format`, and shows a texture that passes
/// render into and shaders read.
pub open spec fn attachment_ready(
    ctx: ContextModel,
    view: TextureView,
    format: TextureFormat,
) -> bool {
    &&& ctx.has_view(view)
    &&& ctx.views[view.id as int].desc.format == format
    &&& ctx.texture_of(view).usage.target
    &&& ctx.texture_of(view).usage.resource
}

/// The buffers that a frame reads: those of the meshes' draws, then the
/// quad's.
pub open spec fn frame_buffers(m: StateModel) -> Seq<Buffer> {
    buffers_of_draws(mesh_draws(m.meshes)).push(m.screen_quad_buf.buffer)
}

/// `passes` are the passes of a frame: the geometry pass over the meshes,
/// then the light pass over the quad.
pub open spec fn is_frame(m: StateModel, passes: Seq<Pass>) -> bool {
    &&& passes.len() == 2
    &&& is_geometry_pass(passes[0], m.geometry_pipeline, m.g_buffer, m.meshes)
    &&& is_light_pass(passes[1], m.light_pipeline, m.g_buffer, m.screen_quad_buf)
}

/// The state holds together: its pipelines are those of the two passes;
/// the intermediate attachments are live, in their formats, and made for
/// both uses; only the depth sampler compares; every mesh and the quad are
/// ready to be drawn; and one frame is in flight in the phase `Submitted`,
/// and none in any other.
pub open spec fn consistent(m: StateModel) -> bool {
    let geometry = m.ctx.pipelines[m.geometry_pipeline.id as int];
    let light = m.ctx.pipelines[m.light_pipeline.id as int];
    &&& m.ctx.has_pipeline(m.geometry_pipeline)
    &&& is_geometry_pipeline(geometry, geometry.vertex.shader)
    &&& m.ctx.has_pipeline(m.light_pipeline)
    &&& is_light_pipeline(light, light.vertex.shader, m.surface_format)
    &&& attachment_ready(m.ctx, m.g_buffer.depth_view, TextureFormat::Depth32Float)
    &&& attachment_ready(m.ctx, m.g_buffer.pos_view, TextureFormat::Rgba32Float)
    &&& attachment_ready(m.ctx, m.g_buffer.normal_view, TextureFormat::Rgba32Float)
    &&& m.ctx.has_sampler(m.g_buffer.depth_sampler)
    &&& m.ctx.has_sampler(m.g_buffer.pos_sampler)
    &&& m.ctx.samplers[m.g_buffer.pos_sampler.id as int].compare is None
    &&& m.ctx.has_sampler(m.g_buffer.normal_sampler)
    &&& m.ctx.samplers[m.g_buffer.normal_sampler.id as int].compare is None
    &&& forall|i: int| 0 <= i < m.meshes.len() ==> (#[trigger] m.meshes[i]).ready(m.ctx)
    &&& piece_holds(m.ctx, m.screen_quad_buf, QUAD_VERTICES, VERTEX_STRIDE)
    &&& match m.phase {
        FramePhase::Submitted => m.prev_sync_point == Some(
            SyncPoint { progress: submissions(m.ctx.log) as u64 },
        ) && 1 <= submissions(m.ctx.log) <= u64::MAX && waited(m.ctx.log) == submissions(
            m.ctx.log,
        ) - 1,
        _ => m.prev_sync_point is None && waited(m.ctx.log) == submissions(m.ctx.log),
    }
}

/// The state after `event`. The event `Submitted` in the phase `Encoding`
/// enters a submission that reads the frame's buffers, and its sync point is
/// kept; the event `Signaled` in the phase `Submitted` enters the wait for
/// that sync point. Every other event changes the phase at most.
pub open spec fn after_event(m: StateModel, event: FrameEvent) -> StateModel {
    match (m.phase, event) {
        (FramePhase::Encoding, FrameEvent::Submitted) => {
            let point = (submissions(m.ctx.log) + 1) as u64;
            StateModel {
                phase: FramePhase::Submitted,
                prev_sync_point: Some(SyncPoint { progress: point }),
                ctx: ContextModel {
                    buffers: records_after_submit(m.ctx.buffers, frame_buffers(m), point),
                    log: m.ctx.log.push(
                        DeviceOp::Submit {
                            point: point as int,
                            buffers: buffer_ids(frame_buffers(m)),
                        },
                    ),
                    ..m.ctx
                },
                ..m
            }
        },
        (FramePhase::Submitted, FrameEvent::Signaled) => StateModel {
            phase: FramePhase::Waited,
            prev_sync_point: None,
            ctx: ContextModel {
                log: m.ctx.log.push(
                    DeviceOp::Wait { point: m.prev_sync_point->Some_0.progress as int },
                ),
                ..m.ctx
            },
            ..m
        },
        _ => StateModel { phase: next_phase(m.phase, event), ..m },
    }
}

/// `work` is what is due in the state `m`: in `Idle`, to acquire the image;
/// once it is acquired, to record the frame's passes; once they are
/// recorded, to present and submit; once submitted, to wait for the
/// submission as long as it takes; after the wait, nothing.
pub open spec fn is_work_due(m: StateModel, work: FrameWork) -> bool {
    match m.phase {
        FramePhase::Idle => work is AcquireImage,
        FramePhase::Acquired => work matches FrameWork::Encode(passes) && is_frame(m, passes@),
        FramePhase::Encoding => work is PresentAndSubmit,
        FramePhase::Submitted => work matches FrameWork::WaitFor { point, timeout_ms } && Some(
            point,
        ) == m.prev_sync_point && timeout_ms == WAIT_FOREVER_MS,
        FramePhase::Waited => work is Rest,
    }
}

/// The surface of a window of `width` by `height` texels: a render target
/// that shows the frame presented last.
pub open spec fn window_surface(width: u32, height: u32) -> SurfaceConfig {
    SurfaceConfig {
        size: Extent { width, height, depth: 1 },
        usage: TextureUsage { copy: false, target: true, resource: false, storage: false },
        display_sync: DisplaySync::Recent,
    }
}

/// Describes the surface of a window of `width` by `height` texels.
pub fn surface_config(width: u32, height: u32) -> (config: SurfaceConfig)
    ensures
        config == window_surface(width, height),
{
    SurfaceConfig {
        size: Extent { width, height, depth: 1 },
        usage: TextureUsage::target(),
        display_sync: DisplaySync::Recent,
    }
}

/// A table that holds a depth texture of `width` by `height` texels with
/// its view and a sampler that compares with less-or-equal, and nothing
/// else.
pub open spec fn depth_only(width: u32, height: u32) -> ContextModel {
    ContextModel {
        buffers: Seq::empty(),
        textures: seq![attachment_texture("depth", TextureFormat::Depth32Float, width, height)],
        views: seq![attachment_view("depth view", TextureFormat::Depth32Float, 0)],
        samplers: seq![nearest_sampler("depth sampler", Some(CompareFunction::LessEqual))],
        shaders: Seq::empty(),
        pipelines: Seq::empty(),
        log: Seq::empty(),
    }
}

/// `m` is the state right after startup for a surface of `width` by
/// `height` texels in the format `surface_format` and a scene of
/// `vertices` vertices: a depth texture with its view and sampler and the
/// intermediate attachments; the two shaders and the two pipelines; the
/// scene's vertex buffer and the quad's, both written and visible; one mesh;
/// no key held; and no frame under way.
pub open spec fn is_startup(
    m: StateModel,
    width: u32,
    height: u32,
    surface_format: TextureFormat,
    vertices: nat,
) -> bool {
    let base = depth_only(width, height);
    &&& m.phase == FramePhase::Idle
    &&& m.prev_sync_point == None::<SyncPoint>
    &&& m.surface == window_surface(width, height)
    &&& m.surface_format == surface_format
    &&& m.command_encoder == (CommandEncoderDesc { name: "main", buffer_count: 2 })
    &&& m.held_keys == Set::<Key>::empty()
    &&& m.geometry_pipeline == (RenderPipeline { id: 0 })
    &&& m.light_pipeline == (RenderPipeline { id: 1 })
    &&& m.g_buffer == gbuffer_at(1, 1)
    &&& m.meshes == seq![
        Mesh {
            vertex_buf: BufferPiece { buffer: Buffer { id: 0 }, offset: 0 },
            index_buf: None,
            num_vertices: vertices as usize,
            num_indices: 0,
        },
    ]
    &&& m.screen_quad_buf == (BufferPiece { buffer: Buffer { id: 1 }, offset: 0 })
    &&& m.ctx.textures == with_gbuffer(base, width, height).textures
    &&& m.ctx.views == with_gbuffer(base, width, height).views
    &&& m.ctx.samplers == with_gbuffer(base, width, height).samplers
    &&& m.ctx.shaders == seq![GEOMETRY_SHADER_PATH, LIGHT_SHADER_PATH]
    &&& m.ctx.pipelines.len() == 2
    &&& is_geometry_pipeline(m.ctx.pipelines[0], Shader { id: 0 })
    &&& is_light_pipeline(m.ctx.pipelines[1], Shader { id: 1 }, surface_format)
    &&& m.ctx.buffers == seq![
        filled_buffer("vertex buffer", (vertices * VERTEX_STRIDE) as u64),
        filled_buffer("screen quad buf", (QUAD_VERTICES * VERTEX_STRIDE) as u64),
    ]
    &&& m.ctx.log == seq![DeviceOp::Write { buffer: 0 }, DeviceOp::Write { buffer: 1 }]
}

/// Every buffer that the meshes' draws read is the vertex buffer or the
/// index buffer of one of the meshes.
pub proof fn lemma_draw_buffers(meshes: Seq<Mesh>, k: int) -> (i: int)
    requires
        0 <= k < buffers_of_draws(mesh_draws(meshes)).len(),
    ensures
        0 <= i < meshes.len(),
        buffers_of_draws(mesh_draws(meshes))[k] == meshes[i].vertex_buf.buffer || (
        meshes[i].index_buf matches Some(piece) && buffers_of_draws(mesh_draws(meshes))[k]
            == piece.buffer),
    decreases meshes.len(),
{
    let draws = mesh_draws(meshes);
    let front = meshes.drop_last();
    assert(draws.drop_last() =~= mesh_draws(front));
    let before = buffers_of_draws(mesh_draws(front));
    if k < before.len() {
        lemma_draw_buffers(front, k)
    } else {
        meshes.len() - 1
    }
}

/// The passes of a frame obey the rules of the table: each pass renders into
/// attachments of the formats its pipeline was created for, binds what the
/// pipeline's shader data asks for, and draws from buffers that are written
/// and visible.
pub proof fn lemma_frame_valid(m: StateModel, passes: Seq<Pass>)
    requires
        consistent(m),
        is_frame(m, passes),
    ensures
        pass_valid(m.ctx, m.surface_format, passes[0]),
        pass_valid(m.ctx, m.surface_format, passes[1]),
{
    let geometry = passes[0];
    let light = passes[1];
    assert forall|i: int| 0 <= i < geometry.draws@.len() implies crate::frame::draw_valid(
        m.ctx,
        #[trigger] geometry.draws@[i],
    ) by {
        assert(m.meshes[i].ready(m.ctx));
    }
    assert(geometry.colors@[0].view == crate::frame::Attachment::View(m.g_buffer.pos_view));
    assert(geometry.colors@[1].view == crate::frame::Attachment::View(m.g_buffer.normal_view));
    assert(light.colors@[0].view == crate::frame::Attachment::Frame);
    assert(light.draws@[0] == quad_draw(m.screen_quad_buf));
}

/// The buffers that the passes of a frame read are the frame's buffers.
pub proof fn lemma_frame_buffers(m: StateModel, passes: Seq<Pass>)
    requires
        is_frame(m, passes),
    ensures
        buffers_of_passes(passes) == frame_buffers(m),
{
    let first = passes.drop_last();
    assert(first.drop_last() =~= Seq::<Pass>::empty());
    assert(buffers_of_passes(first.drop_last()) =~= Seq::<Buffer>::empty());
    assert(first.last() == passes[0]);
    assert(buffers_of_passes(first) =~= buffers_of_draws(mesh_draws(m.meshes)));
    let quad = seq![quad_draw(m.screen_quad_buf)];
    assert(quad.drop_last() =~= Seq::<crate::frame::Draw>::empty());
    assert(buffers_of_draws(quad.drop_last()) =~= Seq::<Buffer>::empty());
    assert(buffers_of_draws(quad) =~= seq![m.screen_quad_buf.buffer]);
    assert(buffers_of_passes(passes) =~= frame_buffers(m));
}

impl State {
    /// The table is consistent and the state holds together.
    pub closed spec fn wf(&self) -> bool {
        self.ctx.wf() && consistent(self@)
    }

    /// A well-formed state holds together, and its log is synchronized: no
    /// buffer was written while a submission that reads it was in flight.
    /// At most one submission is in flight: one in the phase `Submitted`,
    /// none in any other.
    pub proof fn lemma_wf(&self)
        requires
            self.wf(),
        ensures
            consistent(self@),
            synchronized(self@.ctx.log),
            well_numbered(self@.ctx.log),
            submissions(self@.ctx.log) - waited(self@.ctx.log) == (if self@.phase
                == FramePhase::Submitted {
                1int
            } else {
                0int
            }),
    {
        self.ctx.lemma_wf();
    }

    /// Sets up the renderer for a surface of `width` by `height` texels in
    /// the format `surface_format`, with the scene's vertices
    /// `sponza_vertices`. Fails where the surface's format cannot be a
    /// colour target: then the light pass's pipeline is refused.
    pub fn new<P>(
        width: u32,
        height: u32,
        surface_format: TextureFormat,
        sponza_vertices: &Vec<Vertex<P>>,
    ) -> (state: Result<State, PipelineError>)
        requires
            sponza_vertices@.len() <= u32::MAX,
        ensures
            state is Ok <==> !surface_format.depth(),
            match state {
                Ok(s) => s.wf() && is_startup(
                    s@,
                    width,
                    height,
                    surface_format,
                    sponza_vertices@.len(),
                ),
                Err(e) => e == PipelineError::ColorTargetHoldsDepth(0),
            },
    {
        let mut ctx = Context::new();
        let surface = surface_config(width, height);
        let depth_texture = ctx.create_texture(
            TextureDesc {
                name: "depth",
                format: TextureFormat::Depth32Float,
                size: Extent { width, height, depth: 1 },
                array_layer_count: 1,
                mip_level_count: 1,
                dimension: TextureDimension::D2,
                usage: TextureUsage::target().union(TextureUsage::resource()),
            },
        );
        let depth_view = ctx.create_texture_view(
            depth_texture,
            TextureViewDesc {
                name: "depth view",
                format: TextureFormat::Depth32Float,
                dimension: ViewDimension::D2,
            },
        );
        assert(depth_view is Ok);
        let depth_sampler = ctx.create_sampler(
            SamplerDesc {
                compare: Some(CompareFunction::LessEqual),
                ..SamplerDesc::named("depth sampler")
            },
        );
        let geometry_shader = ctx.create_shader(GEOMETRY_SHADER_PATH);
        let light_shader = ctx.create_shader(LIGHT_SHADER_PATH);
        let pipelines = match Pipelines::new(
            &mut ctx,
            geometry_shader,
            light_shader,
            surface_format,
        ) {
            Ok(pipelines) => pipelines,
            Err(e) => {
                return Err(e);
            },
        };
        let command_encoder = CommandEncoderDesc { name: "main", buffer_count: 2 };
        let mut meshes: Vec<Mesh> = Vec::new();
        let gpu_sponza = upload_vertices(sponza_vertices, &mut ctx);
        meshes.push(gpu_sponza);
        let g_buffer = GBuffer::new(&mut ctx, width, height);
        let screen_quad_buf = upload_items(
            &mut ctx,
            "screen quad buf",
            QUAD_VERTICES as usize,
            VERTEX_STRIDE,
        );
        let state = State {
            command_encoder,
            ctx,
            surface,
            surface_format,
            prev_sync_point: None,
            meshes,
            retained_input: RetainedInput::new(),
            g_buffer,
            geometry_pipeline: pipelines.fill_gbuffer,
            light_pipeline: pipelines.deferred,
            screen_quad_buf: screen_quad_buf.whole(),
            phase: FramePhase::Idle,
        };
        proof {
            let m = state@;
            let startup = with_gbuffer(depth_only(width, height), width, height);
            assert(m.ctx.textures =~= startup.textures);
            assert(m.ctx.views =~= startup.views);
            assert(m.ctx.samplers =~= startup.samplers);
            assert(m.ctx.shaders =~= seq![GEOMETRY_SHADER_PATH, LIGHT_SHADER_PATH]);
            assert(m.ctx.buffers =~= seq![
                filled_buffer("vertex buffer", (sponza_vertices@.len() * VERTEX_STRIDE) as u64),
                filled_buffer("screen quad buf", (QUAD_VERTICES * VERTEX_STRIDE) as u64),
            ]);
            assert(m.ctx.log =~= seq![
                DeviceOp::Write { buffer: 0 },
                DeviceOp::Write { buffer: 1 },
            ]);
            assert(m.meshes =~= seq![gpu_sponza]);
            assert(m.meshes[0].ready(m.ctx));
            reveal_with_fuel(submissions, 3);
            reveal_with_fuel(waited, 3);
            assert(m.ctx.log.drop_last() =~= seq![DeviceOp::Write { buffer: 0 }]);
            assert(m.ctx.log.drop_last().drop_last() =~= Seq::<DeviceOp>::empty());
            assert(waited(m.ctx.log) == 0);
            assert(submissions(m.ctx.log) == 0);
        }
        Ok(state)
    }

    /// Records the passes of a frame.
    fn frame_passes(&self) -> (passes: Vec<Pass>)
        requires
            self.wf(),
        ensures
            is_frame(self@, passes@),
    {
        proof {
            assert forall|i: int| 0 <= i < self.meshes@.len() implies (
            #[trigger] self.meshes@[i]).num_vertices <= u32::MAX && self.meshes@[i].num_indices
                <= u32::MAX by {
                assert(self@.meshes[i].ready(self@.ctx));
            }
        }
        let mut passes: Vec<Pass> = Vec::new();
        passes.push(geometry_pass(self.geometry_pipeline, &self.g_buffer, &self.meshes));
        passes.push(light_pass(self.light_pipeline, &self.g_buffer, self.screen_quad_buf));
        passes
    }

    /// The work that is due in the state as it is.
    fn work_due(&self) -> (work: FrameWork)
        requires
            self.wf(),
        ensures
            is_work_due(self@, work),
            work matches FrameWork::Encode(passes) ==> pass_valid(
                self@.ctx,
                self@.surface_format,
                passes@[0],
            ) && pass_valid(self@.ctx, self@.surface_format, passes@[1]),
    {
        match self.phase {
            FramePhase::Idle => FrameWork::AcquireImage,
            FramePhase::Acquired => {
                let passes = self.frame_passes();
                proof {
                    lemma_frame_valid(self@, passes@);
                }
                FrameWork::Encode(passes)
            },
            FramePhase::Encoding => FrameWork::PresentAndSubmit,
            FramePhase::Submitted => {
                match self.prev_sync_point {
                    Some(point) => FrameWork::WaitFor { point, timeout_ms: WAIT_FOREVER_MS },
                    None => FrameWork::Rest,
                }
            },
            FramePhase::Waited => FrameWork::Rest,
        }
    }

    /// Takes in what came of the work on the device, moves the frame on,
    /// and returns the work that is due next. An event that does not belong
    /// to the phase changes nothing, and the same work is due again.
    pub fn render(&mut self, event: FrameEvent) -> (work: FrameWork)
        requires
            old(self).wf(),
            old(self)@.phase == FramePhase::Encoding && event == FrameEvent::Submitted
                ==> submissions(old(self)@.ctx.log) < u64::MAX,
        ensures
            final(self).wf(),
            final(self)@ == after_event(old(self)@, event),
            is_work_due(final(self)@, work),
            work matches FrameWork::Encode(passes) ==> pass_valid(
                final(self)@.ctx,
                final(self)@.surface_format,
                passes@[0],
            ) && pass_valid(final(self)@.ctx, final(self)@.surface_format, passes@[1]),
    {
        match (self.phase, event) {
            (FramePhase::Idle, FrameEvent::ImageAcquired) => {
                self.phase = FramePhase::Acquired;
                assert(consistent(self@));
            },
            (FramePhase::Acquired, FrameEvent::Encoded) => {
                self.phase = FramePhase::Encoding;
                assert(consistent(self@));
            },
            (FramePhase::Encoding, FrameEvent::Submitted) => {
                let passes = self.frame_passes();
                let buffers = collect_buffers(&passes);
                proof {
                    let m = self@;
                    self.ctx.lemma_wf();
                    lemma_frame_buffers(m, passes@);
                    assert forall|k: int| 0 <= k < buffers@.len() implies m.ctx.has_buffer(
                        #[trigger] buffers@[k],
                    ) && !m.ctx.buffers[buffers@[k].id as int].dirty by {
                        if k < buffers@.len() - 1 {
                            let i = lemma_draw_buffers(m.meshes, k);
                            assert(m.meshes[i].ready(m.ctx));
                        }
                    }
                }
                let ghost before = self@;
                let submitted = self.ctx.submit(&buffers);
                match submitted {
                    Ok(point) => {
                        self.prev_sync_point = Some(point);
                        self.phase = FramePhase::Submitted;
                        proof {
                            let m = self@;
                            let log = before.ctx.log;
                            let op = DeviceOp::Submit {
                                point: point.progress as int,
                                buffers: buffer_ids(buffers@),
                            };
                            assert(log.push(op).drop_last() =~= log);
                            assert(submissions(m.ctx.log) == submissions(log) + 1);
                            assert forall|i: int| 0 <= i < m.meshes.len() implies (
                            #[trigger] m.meshes[i]).ready(m.ctx) by {
                                assert(before.meshes[i].ready(before.ctx));
                            }
                            assert(consistent(m));
                            assert(m == after_event(before, event));
                        }
                    },
                    Err(_) => {
                        assert(false);
                    },
                }
            },
            (FramePhase::Submitted, FrameEvent::Signaled) => {
                match self.prev_sync_point {
                    Some(point) => {
                        proof {
                            self.ctx.lemma_wf();
                        }
                        let ghost log = self@.ctx.log;
                        let waited_for = self.ctx.wait_for(point);
                        assert(waited_for is Ok);
                        self.prev_sync_point = None;
                        self.phase = FramePhase::Waited;
                        proof {
                            let op = DeviceOp::Wait { point: point.progress as int };
                            assert(log.push(op).drop_last() =~= log);
                            assert(submissions(log.push(op)) == submissions(log));
                            assert(waited(log.push(op)) == submissions(log));
                            assert(consistent(self@));
                        }
                    },
                    None => {
                        assert(false);
                    },
                }
            },
            (FramePhase::Waited, FrameEvent::Redraw) => {
                self.phase = FramePhase::Idle;
                assert(consistent(self@));
            },
            _ => {
                assert(self@ == after_event(old(self)@, event));
            },
        }
        self.work_due()
    }

    /// Where the frame stands.
    pub fn phase(&self) -> (phase: FramePhase)
        ensures
            phase == self@.phase,
    {
        self.phase
    }

    /// The table of resources.
    pub fn ctx(&self) -> (ctx: &Context)
        ensures
            ctx@ == self@.ctx,
            self.wf() ==> ctx.wf(),
    {
        &self.ctx
    }

    /// The meshes of the scene.
    pub fn meshes(&self) -> (meshes: &Vec<Mesh>)
        ensures
            meshes@ == self@.meshes,
    {
        &self.meshes
    }

    /// The intermediate attachments.
    pub fn g_buffer(&self) -> (g_buffer: GBuffer)
        ensures
            g_buffer == self@.g_buffer,
    {
        self.g_buffer
    }

    /// The pipeline of the geometry pass.
    pub fn geometry_pipeline(&self) -> (pipeline: RenderPipeline)
        ensures
            pipeline == self@.geometry_pipeline,
    {
        self.geometry_pipeline
    }

    /// The pipeline of the light pass.
    pub fn light_pipeline(&self) -> (pipeline: RenderPipeline)
        ensures
            pipeline == self@.light_pipeline,
    {
        self.light_pipeline
    }

    /// The vertex buffer of the quad that fills the screen.
    pub fn screen_quad_buf(&self) -> (quad: BufferPiece)
        ensures
            quad == self@.screen_quad_buf,
    {
        self.screen_quad_buf
    }

    /// What the surface is configured with.
    pub fn surface(&self) -> (surface: SurfaceConfig)
        ensures
            surface == self@.surface,
    {
        self.surface
    }

    /// The format of the surface's images.
    pub fn surface_format(&self) -> (format: TextureFormat)
        ensures
            format == self@.surface_format,
    {
        self.surface_format
    }

    /// What the command encoder is created from.
    pub fn command_encoder(&self) -> (desc: CommandEncoderDesc)
        ensures
            desc == self@.command_encoder,
    {
        self.command_encoder
    }

    /// The sync point of the frame in flight, if one is.
    pub fn prev_sync_point(&self) -> (point: Option<SyncPoint>)
        ensures
            point == self@.prev_sync_point,
    {
        self.prev_sync_point
    }

    /// The motion that the held keys ask of the camera.
    pub fn handle_input(&self) -> (motion: Motion)
        ensures
            motion == motion_of(self@.held_keys),
    {
        self.retained_input.motion()
    }
}

} // verus!

use render_core::context::{BufferRecord, ResourceError};
use render_core::deferred::{geometry_pipeline_desc, light_pipeline_desc, screen_quad_corners};
use render_core::frame::{check_pass, collect_buffers, Attachment, Bound, Draw, Pass, RenderTarget};
use render_core::gbuffer::GBuffer;
use render_core::input::{Key, Motion};
use render_core::mesh::Vertex;
use render_core::pipeline::PipelineError;
use render_core::resources::{
    Buffer, BufferDesc, BufferPiece, CommandEncoderDesc, DisplaySync, Extent, FinishOp, InitOp,
    Memory, RenderPipeline, Sampler, Shader, SurfaceConfig, SyncPoint, TextureColor, TextureFormat,
    TextureUsage, TextureView,
};
use render_core::state::{
    surface_config, FrameEvent, FramePhase, FrameWork, State, GEOMETRY_SHADER_PATH,
    LIGHT_SHADER_PATH, WAIT_FOREVER_MS,
};
use render_core::upload::Mesh;

fn scene(count: usize) -> Vec<Vertex<[f32; 3]>> {
    vec![Vertex { pos: [0.0; 3], normal: [0.0; 3] }; count]
}

fn started(count: usize) -> State {
    State::new(800, 600, TextureFormat::Bgra8UnormSrgb, &scene(count)).ok().unwrap()
}

fn cleared(view: Attachment) -> RenderTarget {
    RenderTarget { view, init_op: InitOp::Clear(TextureColor::White), finish_op: FinishOp::Store }
}

fn passes_of(work: FrameWork) -> Vec<Pass> {
    match work {
        FrameWork::Encode(passes) => passes,
        other => panic!("passes were due, not {:?}", other),
    }
}

fn is_acquire(work: &FrameWork) -> bool {
    matches!(work, FrameWork::AcquireImage)
}

#[test]
fn startup_for_a_depth_surface_fails() {
    let state = State::new(800, 600, TextureFormat::Depth32Float, &scene(3));
    assert_eq!(state.err(), Some(PipelineError::ColorTargetHoldsDepth(0)));
}

#[test]
fn startup_state() {
    let state = started(9);
    assert_eq!(state.phase(), FramePhase::Idle);
    assert_eq!(state.prev_sync_point(), None);
    assert_eq!(
        state.surface(),
        SurfaceConfig {
            size: Extent { width: 800, height: 600, depth: 1 },
            usage: TextureUsage::target(),
            display_sync: DisplaySync::Recent,
        }
    );
    assert_eq!(state.surface_format(), TextureFormat::Bgra8UnormSrgb);
    assert_eq!(state.command_encoder(), CommandEncoderDesc { name: "main", buffer_count: 2 });
    assert_eq!(state.geometry_pipeline(), RenderPipeline { id: 0 });
    assert_eq!(state.light_pipeline(), RenderPipeline { id: 1 });
    assert_eq!(
        state.g_buffer(),
        GBuffer {
            depth_view: TextureView { id: 1 },
            pos_view: TextureView { id: 2 },
            normal_view: TextureView { id: 3 },
            depth_sampler: Sampler { id: 1 },
            pos_sampler: Sampler { id: 2 },
            normal_sampler: Sampler { id: 3 },
        }
    );
    assert_eq!(
        *state.meshes(),
        vec![Mesh {
            vertex_buf: BufferPiece { buffer: Buffer { id: 0 }, offset: 0 },
            index_buf: None,
            num_vertices: 9,
            num_indices: 0,
        }]
    );
    assert_eq!(state.screen_quad_buf(), BufferPiece { buffer: Buffer { id: 1 }, offset: 0 });
    assert_eq!(state.handle_input(), Motion { right: 0, forward: 0, up: 0, yaw: 0, pitch: 0 });
}

#[test]
fn startup_table() {
    let state = started(9);
    let ctx = state.ctx();
    let names: Vec<&str> = ctx.textures().iter().map(|t| t.desc.name).collect();
    assert_eq!(names, vec!["depth", "depth texture", "pos texture", "normal texture"]);
    let formats: Vec<TextureFormat> = ctx.textures().iter().map(|t| t.desc.format).collect();
    assert_eq!(
        formats,
        vec![
            TextureFormat::Depth32Float,
            TextureFormat::Depth32Float,
            TextureFormat::Rgba32Float,
            TextureFormat::Rgba32Float,
        ]
    );
    for texture in ctx.textures() {
        assert_eq!(texture.desc.size, Extent { width: 800, height: 600, depth: 1 });
        assert_eq!(
            texture.desc.usage,
            TextureUsage { copy: false, target: true, resource: true, storage: false }
        );
        assert!(texture.alive);
    }
    let views: Vec<(&str, usize)> = ctx.views().iter().map(|v| (v.desc.name, v.texture.id)).collect();
    assert_eq!(views, vec![("depth view", 0), ("depth view", 1), ("pos view", 2), ("normal view", 3)]);
    let samplers: Vec<(&str, bool)> =
        ctx.samplers().iter().map(|s| (s.name, s.compare.is_some())).collect();
    assert_eq!(
        samplers,
        vec![
            ("depth sampler", true),
            ("depth sampler", true),
            ("pos sampler", false),
            ("normal sampler", false),
        ]
    );
    assert_eq!(*ctx.shaders(), vec![GEOMETRY_SHADER_PATH, LIGHT_SHADER_PATH]);
    assert_eq!(*ctx.shaders(), vec!["src/shader.wgsl", "src/light_shader.wgsl"]);
    assert_eq!(
        *ctx.pipelines(),
        vec![
            geometry_pipeline_desc(Shader { id: 0 }),
            light_pipeline_desc(Shader { id: 1 }, TextureFormat::Bgra8UnormSrgb),
        ]
    );
    let filled = |name: &'static str, size: u64| BufferRecord {
        desc: BufferDesc { name, size, memory: Memory::Shared },
        alive: true,
        filled: size,
        dirty: false,
        last_use: 0,
    };
    assert_eq!(*ctx.buffers(), vec![filled("vertex buffer", 216), filled("screen quad buf", 144)]);
    assert_eq!(ctx.submitted(), 0);
    assert_eq!(ctx.completed(), 0);
}

#[test]
fn frame_goes_through_its_phases_in_order() {
    let mut state = started(3);
    assert!(is_acquire(&state.render(FrameEvent::Redraw)));
    assert_eq!(state.phase(), FramePhase::Idle);

    let passes = passes_of(state.render(FrameEvent::ImageAcquired));
    assert_eq!(state.phase(), FramePhase::Acquired);
    assert_eq!(passes.len(), 2);

    assert!(matches!(state.render(FrameEvent::Encoded), FrameWork::PresentAndSubmit));
    assert_eq!(state.phase(), FramePhase::Encoding);
    assert_eq!(state.ctx().submitted(), 0);

    let work = state.render(FrameEvent::Submitted);
    assert_eq!(work, FrameWork::WaitFor { point: SyncPoint { progress: 1 }, timeout_ms: u32::MAX });
    assert_eq!(WAIT_FOREVER_MS, u32::MAX);
    assert_eq!(state.phase(), FramePhase::Submitted);
    assert_eq!(state.prev_sync_point(), Some(SyncPoint { progress: 1 }));
    assert_eq!(state.ctx().submitted(), 1);
    assert_eq!(state.ctx().completed(), 0);
    assert_eq!(state.ctx().buffers()[0].last_use, 1);
    assert_eq!(state.ctx().buffers()[1].last_use, 1);

    assert!(matches!(state.render(FrameEvent::Signaled), FrameWork::Rest));
    assert_eq!(state.phase(), FramePhase::Waited);
    assert_eq!(state.prev_sync_point(), None);
    assert_eq!(state.ctx().completed(), 1);

    assert!(is_acquire(&state.render(FrameEvent::Redraw)));
    assert_eq!(state.phase(), FramePhase::Idle);
}

#[test]
fn second_frame_gets_the_next_sync_point() {
    let mut state = started(3);
    for frame in 1..=3u64 {
        state.render(FrameEvent::Redraw);
        state.render(FrameEvent::ImageAcquired);
        state.render(FrameEvent::Encoded);
        let work = state.render(FrameEvent::Submitted);
        assert_eq!(work, FrameWork::WaitFor { point: SyncPoint { progress: frame }, timeout_ms: u32::MAX });
        state.render(FrameEvent::Signaled);
        assert_eq!(state.ctx().submitted(), frame);
        assert_eq!(state.ctx().completed(), frame);
    }
}

#[test]
fn events_out_of_turn_change_nothing() {
    let all = [
        FrameEvent::Redraw,
        FrameEvent::ImageAcquired,
        FrameEvent::AcquireFailed,
        FrameEvent::Encoded,
        FrameEvent::Submitted,
        FrameEvent::Signaled,
        FrameEvent::TimedOut,
    ];
    let script = [
        (FramePhase::Idle, FrameEvent::ImageAcquired),
        (FramePhase::Acquired, FrameEvent::Encoded),
        (FramePhase::Encoding, FrameEvent::Submitted),
        (FramePhase::Submitted, FrameEvent::Signaled),
        (FramePhase::Waited, FrameEvent::Redraw),
    ];
    let mut state = started(3);
    for (phase, advancing) in script {
        assert_eq!(state.phase(), phase);
        for event in all {
            if event == advancing {
                continue;
            }
            let submitted = state.ctx().submitted();
            let completed = state.ctx().completed();
            let work = state.render(event);
            assert_eq!(state.phase(), phase, "{:?} in {:?}", event, phase);
            assert_eq!(state.ctx().submitted(), submitted);
            assert_eq!(state.ctx().completed(), completed);
            let fits = match phase {
                FramePhase::Idle => matches!(work, FrameWork::AcquireImage),
                FramePhase::Acquired => matches!(work, FrameWork::Encode(_)),
                FramePhase::Encoding => matches!(work, FrameWork::PresentAndSubmit),
                FramePhase::Submitted => matches!(work, FrameWork::WaitFor { .. }),
                FramePhase::Waited => matches!(work, FrameWork::Rest),
            };
            assert!(fits, "{:?} in {:?} gave {:?}", event, phase, work);
        }
        state.render(advancing);
    }
    assert_eq!(state.phase(), FramePhase::Idle);
}

#[test]
fn failed_acquire_leaves_the_frame_idle() {
    let mut state = started(3);
    state.render(FrameEvent::Redraw);
    assert!(is_acquire(&state.render(FrameEvent::AcquireFailed)));
    assert_eq!(state.phase(), FramePhase::Idle);
    assert_eq!(state.ctx().submitted(), 0);
}

#[test]
fn timed_out_wait_is_due_again() {
    let mut state = started(3);
    state.render(FrameEvent::ImageAcquired);
    state.render(FrameEvent::Encoded);
    state.render(FrameEvent::Submitted);
    let again = state.render(FrameEvent::TimedOut);
    assert_eq!(again, FrameWork::WaitFor { point: SyncPoint { progress: 1 }, timeout_ms: u32::MAX });
    assert_eq!(state.phase(), FramePhase::Submitted);
    assert_eq!(state.ctx().completed(), 0);
}

#[test]
fn passes_of_a_frame() {
    let mut state = started(9);
    let passes = passes_of(state.render(FrameEvent::ImageAcquired));
    let g = state.g_buffer();
    assert_eq!(
        passes[0],
        Pass {
            name: "geometry",
            colors: vec![cleared(Attachment::View(g.pos_view)), cleared(Attachment::View(g.normal_view))],
            depth_stencil: Some(cleared(Attachment::View(g.depth_view))),
            pipeline: state.geometry_pipeline(),
            data: vec![Bound::Globals],
            draws: vec![Draw {
                vertex_buf: BufferPiece { buffer: Buffer { id: 0 }, offset: 0 },
                index_buf: None,
                vertex_count: 9,
                index_count: 0,
                instance_count: 1,
            }],
        }
    );
    assert_eq!(
        passes[1],
        Pass {
            name: "light",
            colors: vec![cleared(Attachment::Frame)],
            depth_stencil: None,
            pipeline: state.light_pipeline(),
            data: vec![
                Bound::Globals,
                Bound::Sampled { view: g.depth_view, sampler: g.depth_sampler },
                Bound::Sampled { view: g.pos_view, sampler: g.pos_sampler },
                Bound::Sampled { view: g.normal_view, sampler: g.normal_sampler },
            ],
            draws: vec![Draw {
                vertex_buf: BufferPiece { buffer: Buffer { id: 1 }, offset: 0 },
                index_buf: None,
                vertex_count: 6,
                index_count: 0,
                instance_count: 1,
            }],
        }
    );
    assert_eq!(collect_buffers(&passes), vec![Buffer { id: 0 }, Buffer { id: 1 }]);
}

#[test]
fn passes_fit_their_pipelines() {
    let mut state = started(9);
    let passes = passes_of(state.render(FrameEvent::ImageAcquired));
    let ctx = state.ctx();
    for pass in &passes {
        let pipeline = &ctx.pipelines()[pass.pipeline.id];
        assert_eq!(pass.colors.len(), pipeline.color_targets.len());
        for (target, state_of) in pass.colors.iter().zip(pipeline.color_targets.iter()) {
            let format = match target.view {
                Attachment::Frame => state.surface_format(),
                Attachment::View(view) => {
                    let record = ctx.views()[view.id];
                    assert!(record.alive);
                    assert!(ctx.textures()[record.texture.id].desc.usage.target);
                    record.desc.format
                }
            };
            assert_eq!(format, state_of.format);
        }
        assert_eq!(pass.depth_stencil.is_some(), pipeline.depth_stencil.is_some());
        assert_eq!(pass.data.len(), pipeline.data_layout.len());
        for draw in &pass.draws {
            let record = ctx.buffers()[draw.vertex_buf.buffer.id];
            assert!(record.alive && !record.dirty);
            assert!(draw.vertex_count as u64 * 24 <= record.filled);
            assert_eq!(draw.instance_count, 1);
        }
    }
}

#[test]
fn collect_buffers_lists_vertex_then_index_buffer_of_each_draw() {
    let draw = |v: usize, i: Option<usize>| Draw {
        vertex_buf: BufferPiece { buffer: Buffer { id: v }, offset: 0 },
        index_buf: i.map(|id| BufferPiece { buffer: Buffer { id }, offset: 0 }),
        vertex_count: 0,
        index_count: 0,
        instance_count: 1,
    };
    let pass = |draws: Vec<Draw>| Pass {
        name: "p",
        colors: vec![],
        depth_stencil: None,
        pipeline: RenderPipeline { id: 0 },
        data: vec![],
        draws,
    };
    let passes = vec![pass(vec![draw(4, Some(7)), draw(2, None)]), pass(vec![]), pass(vec![draw(4, None)])];
    let ids: Vec<usize> = collect_buffers(&passes).iter().map(|b| b.id).collect();
    assert_eq!(ids, vec![4, 7, 2, 4]);
    assert!(collect_buffers(&vec![]).is_empty());
}

#[test]
fn held_keys_move_the_camera() {
    let mut state = started(3);
    state.retained_input.held_keys.insert(Key::W);
    state.retained_input.held_keys.insert(Key::D);
    state.retained_input.held_keys.insert(Key::K);
    assert_eq!(state.handle_input(), Motion { right: 1, forward: 1, up: 0, yaw: 0, pitch: -1 });
    state.retained_input.held_keys.remove(Key::W);
    state.retained_input.held_keys.insert(Key::A);
    assert_eq!(state.handle_input(), Motion { right: 0, forward: 0, up: 0, yaw: 0, pitch: -1 });
}

#[test]
fn screen_quad_is_two_triangles_over_the_whole_screen() {
    assert_eq!(
        screen_quad_corners(),
        [[-1, -1, 0], [1, -1, 0], [-1, 1, 0], [1, -1, 0], [1, 1, 0], [-1, 1, 0]]
    );
}

#[test]
fn refusals_name_their_reason() {
    assert_ne!(ResourceError::InFlight, ResourceError::Unsynced);
    assert_ne!(ResourceError::NoSuchBuffer, ResourceError::NoSuchTexture);
}

#[test]
fn surface_of_a_window() {
    assert_eq!(
        surface_config(1024, 768),
        SurfaceConfig {
            size: Extent { width: 1024, height: 768, depth: 1 },
            usage: TextureUsage { copy: false, target: true, resource: false, storage: false },
            display_sync: DisplaySync::Recent,
        }
    );
}

#[test]
fn passes_of_a_frame_pass_the_check() {
    let mut state = started(9);
    let passes = passes_of(state.render(FrameEvent::ImageAcquired));
    for pass in &passes {
        assert!(check_pass(state.ctx(), state.surface_format(), pass));
    }
    let empty = started(0);
    let mut empty = empty;
    for pass in &passes_of(empty.render(FrameEvent::ImageAcquired)) {
        assert!(check_pass(empty.ctx(), empty.surface_format(), pass));
    }
}

#[test]
fn check_refuses_a_pass_that_breaks_a_rule() {
    let mut state = started(9);
    let passes = passes_of(state.render(FrameEvent::ImageAcquired));
    let format = state.surface_format();
    let g = state.g_buffer();
    let refused = |pass: &Pass, format: TextureFormat| !check_pass(state.ctx(), format, pass);
    let geometry = passes[0].clone();
    let light = passes[1].clone();

    assert!(refused(&Pass { pipeline: RenderPipeline { id: 2 }, ..geometry.clone() }, format));
    assert!(refused(&Pass { pipeline: state.light_pipeline(), ..geometry.clone() }, format));
    assert!(refused(&Pass { colors: vec![geometry.colors[0]], ..geometry.clone() }, format));
    assert!(refused(
        &Pass { colors: vec![geometry.colors[0], cleared(Attachment::Frame)], ..geometry.clone() },
        format
    ));
    assert!(refused(
        &Pass {
            colors: vec![geometry.colors[0], cleared(Attachment::View(g.depth_view))],
            ..geometry.clone()
        },
        format
    ));
    assert!(refused(
        &Pass {
            colors: vec![geometry.colors[0], cleared(Attachment::View(TextureView { id: 9 }))],
            ..geometry.clone()
        },
        format
    ));
    assert!(refused(&Pass { depth_stencil: None, ..geometry.clone() }, format));
    assert!(refused(
        &Pass { depth_stencil: Some(cleared(Attachment::View(g.pos_view))), ..geometry.clone() },
        format
    ));
    assert!(refused(&Pass { data: vec![], ..geometry.clone() }, format));
    assert!(refused(
        &Pass {
            data: vec![Bound::Sampled { view: g.pos_view, sampler: g.pos_sampler }],
            ..geometry.clone()
        },
        format
    ));
    let draw = geometry.draws[0];
    assert!(refused(&Pass { draws: vec![Draw { instance_count: 2, ..draw }], ..geometry.clone() }, format));
    assert!(refused(&Pass { draws: vec![Draw { instance_count: 0, ..draw }], ..geometry.clone() }, format));
    assert!(refused(&Pass { draws: vec![Draw { vertex_count: 10, ..draw }], ..geometry.clone() }, format));
    assert!(refused(&Pass { draws: vec![Draw { index_count: 1, ..draw }], ..geometry.clone() }, format));
    assert!(refused(
        &Pass {
            draws: vec![Draw { vertex_buf: BufferPiece { buffer: Buffer { id: 0 }, offset: 24 }, ..draw }],
            ..geometry.clone()
        },
        format
    ));
    assert!(refused(
        &Pass {
            draws: vec![Draw { vertex_buf: BufferPiece { buffer: Buffer { id: 5 }, offset: 0 }, ..draw }],
            ..geometry.clone()
        },
        format
    ));
    assert!(!refused(
        &Pass {
            draws: vec![
                Draw { vertex_count: 8, vertex_buf: BufferPiece { buffer: Buffer { id: 0 }, offset: 24 }, ..draw },
                Draw {
                    index_buf: Some(BufferPiece { buffer: Buffer { id: 1 }, offset: 0 }),
                    index_count: 36,
                    ..draw
                },
            ],
            ..geometry.clone()
        },
        format
    ));
    assert!(refused(
        &Pass {
            draws: vec![Draw {
                index_buf: Some(BufferPiece { buffer: Buffer { id: 1 }, offset: 0 }),
                index_count: 37,
                ..draw
            }],
            ..geometry.clone()
        },
        format
    ));

    assert!(refused(&light, TextureFormat::Rgba8Unorm));
    assert!(refused(&Pass { depth_stencil: geometry.depth_stencil, ..light.clone() }, format));
    let mut data = light.data.clone();
    data[2] = Bound::Sampled { view: g.pos_view, sampler: g.depth_sampler };
    assert!(refused(&Pass { data, ..light.clone() }, format));
    let mut data = light.data.clone();
    data[1] = Bound::Sampled { view: g.depth_view, sampler: g.pos_sampler };
    assert!(!refused(&Pass { data, ..light.clone() }, format));
    let mut data = light.data.clone();
    data[3] = Bound::Sampled { view: g.normal_view, sampler: Sampler { id: 4 } };
    assert!(refused(&Pass { data, ..light.clone() }, format));
    let mut data = light.data.clone();
    data[0] = Bound::Sampled { view: g.normal_view, sampler: g.normal_sampler };
    assert!(refused(&Pass { data, ..light.clone() }, format));
    let mut data = light.data.clone();
    data[1] = Bound::Globals;
    assert!(refused(&Pass { data, ..light.clone() }, format));
}

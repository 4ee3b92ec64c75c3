use render_core::context::{BufferRecord, Context, ResourceError, TextureRecord, ViewRecord};
use render_core::resources::{
    Buffer, BufferDesc, Extent, Memory, Sampler, SamplerDesc, SyncPoint, Texture, TextureDesc,
    TextureDimension, TextureFormat, TextureUsage, TextureView, TextureViewDesc, ViewDimension,
};

fn buffer(ctx: &mut Context, size: u64, memory: Memory) -> Buffer {
    ctx.create_buffer(BufferDesc { name: "b", size, memory })
}

fn texture_desc(format: TextureFormat) -> TextureDesc {
    TextureDesc {
        name: "t",
        format,
        size: Extent { width: 4, height: 2, depth: 1 },
        array_layer_count: 1,
        mip_level_count: 1,
        dimension: TextureDimension::D2,
        usage: TextureUsage::target(),
    }
}

fn view_desc(format: TextureFormat) -> TextureViewDesc {
    TextureViewDesc { name: "v", format, dimension: ViewDimension::D2 }
}

#[test]
fn new_table_is_empty() {
    let ctx = Context::new();
    assert!(ctx.buffers().is_empty());
    assert!(ctx.textures().is_empty());
    assert!(ctx.views().is_empty());
    assert!(ctx.samplers().is_empty());
    assert!(ctx.shaders().is_empty());
    assert!(ctx.pipelines().is_empty());
    assert_eq!(ctx.submitted(), 0);
    assert_eq!(ctx.completed(), 0);
}

#[test]
fn handles_count_from_zero_for_each_kind() {
    let mut ctx = Context::new();
    assert_eq!(buffer(&mut ctx, 8, Memory::Shared), Buffer { id: 0 });
    assert_eq!(buffer(&mut ctx, 8, Memory::Device), Buffer { id: 1 });
    assert_eq!(ctx.create_texture(texture_desc(TextureFormat::Rgba8Unorm)), Texture { id: 0 });
    assert_eq!(ctx.create_sampler(SamplerDesc::named("s")), Sampler { id: 0 });
    assert_eq!(ctx.create_sampler(SamplerDesc::named("r")), Sampler { id: 1 });
    assert_eq!(ctx.create_shader("a.wgsl").id, 0);
    assert_eq!(ctx.create_shader("b.wgsl").id, 1);
    assert_eq!(*ctx.shaders(), vec!["a.wgsl", "b.wgsl"]);
    assert_eq!(ctx.samplers()[1].name, "r");
}

#[test]
fn new_buffer_is_live_clean_and_unwritten() {
    let mut ctx = Context::new();
    let b = buffer(&mut ctx, 100, Memory::Upload);
    assert_eq!(
        ctx.buffers()[b.id],
        BufferRecord {
            desc: BufferDesc { name: "b", size: 100, memory: Memory::Upload },
            alive: true,
            filled: 0,
            dirty: false,
            last_use: 0,
        }
    );
}

#[test]
fn write_within_bounds_is_granted() {
    let mut ctx = Context::new();
    let b = buffer(&mut ctx, 100, Memory::Shared);
    assert_eq!(ctx.write_buffer(b, 0, 100), Ok(()));
    assert_eq!(ctx.buffers()[b.id].filled, 100);
    assert!(ctx.buffers()[b.id].dirty);
    assert_eq!(ctx.write_buffer(b, 100, 0), Ok(()));
    assert_eq!(ctx.write_buffer(b, 40, 60), Ok(()));
    assert_eq!(ctx.buffers()[b.id].filled, 100);
}

#[test]
fn write_past_the_end_is_refused() {
    let mut ctx = Context::new();
    let b = buffer(&mut ctx, 100, Memory::Shared);
    assert_eq!(ctx.write_buffer(b, 0, 101), Err(ResourceError::OutOfBounds));
    assert_eq!(ctx.write_buffer(b, 1, 100), Err(ResourceError::OutOfBounds));
    assert_eq!(ctx.write_buffer(b, 101, 0), Err(ResourceError::OutOfBounds));
    assert_eq!(ctx.write_buffer(b, u64::MAX, 1), Err(ResourceError::OutOfBounds));
    assert_eq!(ctx.write_buffer(b, u64::MAX, u64::MAX), Err(ResourceError::OutOfBounds));
    assert_eq!(ctx.buffers()[b.id].filled, 0);
    assert!(!ctx.buffers()[b.id].dirty);
}

#[test]
fn write_to_device_memory_is_refused() {
    let mut ctx = Context::new();
    let b = buffer(&mut ctx, 100, Memory::Device);
    assert_eq!(ctx.write_buffer(b, 0, 4), Err(ResourceError::NotHostVisible));
    assert_eq!(ctx.write_buffer(b, 0, 400), Err(ResourceError::NotHostVisible));
    assert!(!Memory::Device.is_host_visible());
    assert!(Memory::Shared.is_host_visible());
    assert!(Memory::Upload.is_host_visible());
}

#[test]
fn write_to_an_unknown_buffer_is_refused() {
    let mut ctx = Context::new();
    assert_eq!(ctx.write_buffer(Buffer { id: 0 }, 0, 0), Err(ResourceError::NoSuchBuffer));
    let b = buffer(&mut ctx, 100, Memory::Shared);
    assert_eq!(ctx.write_buffer(Buffer { id: 1 }, 0, 0), Err(ResourceError::NoSuchBuffer));
    assert_eq!(ctx.destroy_buffer(b), Ok(()));
    assert_eq!(ctx.write_buffer(b, 0, 0), Err(ResourceError::NoSuchBuffer));
    assert_eq!(ctx.sync_buffer(b), Err(ResourceError::NoSuchBuffer));
    assert_eq!(ctx.destroy_buffer(b), Err(ResourceError::NoSuchBuffer));
}

#[test]
fn written_prefix_grows_only_without_a_gap() {
    let mut ctx = Context::new();
    let b = buffer(&mut ctx, 100, Memory::Shared);
    assert_eq!(ctx.write_buffer(b, 10, 10), Ok(()));
    assert_eq!(ctx.buffers()[b.id].filled, 0);
    assert_eq!(ctx.write_buffer(b, 0, 10), Ok(()));
    assert_eq!(ctx.buffers()[b.id].filled, 10);
    assert_eq!(ctx.write_buffer(b, 10, 15), Ok(()));
    assert_eq!(ctx.buffers()[b.id].filled, 25);
    assert_eq!(ctx.write_buffer(b, 5, 5), Ok(()));
    assert_eq!(ctx.buffers()[b.id].filled, 25);
    assert_eq!(ctx.write_buffer(b, 20, 80), Ok(()));
    assert_eq!(ctx.buffers()[b.id].filled, 100);
}

#[test]
fn sync_clears_the_dirty_mark() {
    let mut ctx = Context::new();
    let b = buffer(&mut ctx, 16, Memory::Shared);
    assert_eq!(ctx.write_buffer(b, 0, 16), Ok(()));
    assert!(ctx.buffers()[b.id].dirty);
    assert_eq!(ctx.sync_buffer(b), Ok(()));
    assert!(!ctx.buffers()[b.id].dirty);
    assert_eq!(ctx.buffers()[b.id].filled, 16);
    assert_eq!(ctx.sync_buffer(Buffer { id: 9 }), Err(ResourceError::NoSuchBuffer));
}

#[test]
fn submit_of_an_unsynced_buffer_is_refused() {
    let mut ctx = Context::new();
    let b = buffer(&mut ctx, 16, Memory::Shared);
    assert_eq!(ctx.write_buffer(b, 0, 16), Ok(()));
    assert_eq!(ctx.submit(&vec![b]), Err(ResourceError::Unsynced));
    assert_eq!(ctx.submitted(), 0);
    assert_eq!(ctx.sync_buffer(b), Ok(()));
    assert_eq!(ctx.submit(&vec![b]), Ok(SyncPoint { progress: 1 }));
    assert_eq!(ctx.submitted(), 1);
}

#[test]
fn submit_of_an_unknown_buffer_is_refused() {
    let mut ctx = Context::new();
    let b = buffer(&mut ctx, 16, Memory::Shared);
    assert_eq!(ctx.submit(&vec![b, Buffer { id: 5 }]), Err(ResourceError::NoSuchBuffer));
    assert_eq!(ctx.buffers()[b.id].last_use, 0);
    let dirty = buffer(&mut ctx, 16, Memory::Shared);
    assert_eq!(ctx.write_buffer(dirty, 0, 1), Ok(()));
    assert_eq!(ctx.submit(&vec![dirty, Buffer { id: 5 }]), Err(ResourceError::NoSuchBuffer));
    assert_eq!(ctx.submitted(), 0);
}

#[test]
fn sync_points_count_submissions_from_one() {
    let mut ctx = Context::new();
    assert_eq!(ctx.submit(&vec![]), Ok(SyncPoint { progress: 1 }));
    assert_eq!(ctx.submit(&vec![]), Ok(SyncPoint { progress: 2 }));
    assert_eq!(ctx.submit(&vec![]), Ok(SyncPoint { progress: 3 }));
    assert_eq!(ctx.submitted(), 3);
    assert_eq!(ctx.completed(), 0);
}

#[test]
fn no_write_between_submission_and_wait() {
    let mut ctx = Context::new();
    let used = buffer(&mut ctx, 16, Memory::Shared);
    let other = buffer(&mut ctx, 16, Memory::Shared);
    let point = ctx.submit(&vec![used, used]).unwrap();
    assert_eq!(ctx.buffers()[used.id].last_use, 1);
    assert_eq!(ctx.buffers()[other.id].last_use, 0);
    assert!(ctx.is_in_flight(used));
    assert!(!ctx.is_in_flight(other));
    assert_eq!(ctx.write_buffer(used, 0, 16), Err(ResourceError::InFlight));
    assert_eq!(ctx.write_buffer(used, 0, 0), Err(ResourceError::InFlight));
    assert_eq!(ctx.write_buffer(other, 0, 16), Ok(()));
    assert_eq!(ctx.destroy_buffer(used), Err(ResourceError::InFlight));
    assert_eq!(ctx.buffers()[used.id].filled, 0);
    assert_eq!(ctx.wait_for(point), Ok(()));
    assert!(!ctx.is_in_flight(used));
    assert_eq!(ctx.write_buffer(used, 0, 16), Ok(()));
    assert_eq!(ctx.destroy_buffer(used), Ok(()));
}

#[test]
fn wait_for_a_later_submission_ends_the_earlier_ones() {
    let mut ctx = Context::new();
    let a = buffer(&mut ctx, 16, Memory::Shared);
    let b = buffer(&mut ctx, 16, Memory::Shared);
    let first = ctx.submit(&vec![a]).unwrap();
    let second = ctx.submit(&vec![b]).unwrap();
    assert_eq!(ctx.wait_for(first), Ok(()));
    assert_eq!(ctx.completed(), 1);
    assert_eq!(ctx.write_buffer(a, 0, 1), Ok(()));
    assert_eq!(ctx.write_buffer(b, 0, 1), Err(ResourceError::InFlight));
    assert_eq!(ctx.wait_for(second), Ok(()));
    assert_eq!(ctx.completed(), 2);
    assert_eq!(ctx.write_buffer(b, 0, 1), Ok(()));
    assert_eq!(ctx.wait_for(first), Ok(()));
    assert_eq!(ctx.completed(), 2);

    let mut ctx = Context::new();
    let a = buffer(&mut ctx, 16, Memory::Shared);
    let _ = ctx.submit(&vec![a]).unwrap();
    let second = ctx.submit(&vec![]).unwrap();
    assert_eq!(ctx.wait_for(second), Ok(()));
    assert_eq!(ctx.write_buffer(a, 0, 1), Ok(()));
}

#[test]
fn a_buffer_used_again_is_in_flight_again() {
    let mut ctx = Context::new();
    let a = buffer(&mut ctx, 16, Memory::Shared);
    let first = ctx.submit(&vec![a]).unwrap();
    assert_eq!(ctx.wait_for(first), Ok(()));
    let second = ctx.submit(&vec![a]).unwrap();
    assert_eq!(ctx.buffers()[a.id].last_use, 2);
    assert_eq!(ctx.write_buffer(a, 0, 1), Err(ResourceError::InFlight));
    assert_eq!(ctx.wait_for(first), Ok(()));
    assert_eq!(ctx.write_buffer(a, 0, 1), Err(ResourceError::InFlight));
    assert_eq!(ctx.wait_for(second), Ok(()));
    assert_eq!(ctx.write_buffer(a, 0, 1), Ok(()));
}

#[test]
fn wait_for_a_sync_point_that_was_not_issued_is_refused() {
    let mut ctx = Context::new();
    assert_eq!(ctx.wait_for(SyncPoint { progress: 0 }), Err(ResourceError::NoSuchSyncPoint));
    assert_eq!(ctx.wait_for(SyncPoint { progress: 1 }), Err(ResourceError::NoSuchSyncPoint));
    let point = ctx.submit(&vec![]).unwrap();
    assert_eq!(ctx.wait_for(SyncPoint { progress: 2 }), Err(ResourceError::NoSuchSyncPoint));
    assert_eq!(ctx.wait_for(SyncPoint { progress: 0 }), Err(ResourceError::NoSuchSyncPoint));
    assert_eq!(ctx.completed(), 0);
    assert_eq!(ctx.wait_for(point), Ok(()));
    assert_eq!(ctx.completed(), 1);
}

#[test]
fn view_needs_a_live_texture() {
    let mut ctx = Context::new();
    let desc = view_desc(TextureFormat::Rgba8Unorm);
    assert_eq!(ctx.create_texture_view(Texture { id: 0 }, desc), Err(ResourceError::NoSuchTexture));
    let t = ctx.create_texture(texture_desc(TextureFormat::Rgba8Unorm));
    assert_eq!(ctx.create_texture_view(t, desc), Ok(TextureView { id: 0 }));
    assert_eq!(ctx.views()[0], ViewRecord { texture: t, desc, alive: true });
    assert_eq!(ctx.textures()[0], TextureRecord { desc: texture_desc(TextureFormat::Rgba8Unorm), alive: true });
    assert_eq!(ctx.create_texture_view(Texture { id: 1 }, desc), Err(ResourceError::NoSuchTexture));
    assert_eq!(ctx.views().len(), 1);
}

#[test]
fn texture_outlives_its_views() {
    let mut ctx = Context::new();
    let t = ctx.create_texture(texture_desc(TextureFormat::Rgba8Unorm));
    let other = ctx.create_texture(texture_desc(TextureFormat::Rgba8Unorm));
    let v = ctx.create_texture_view(t, view_desc(TextureFormat::Rgba8Unorm)).unwrap();
    let w = ctx.create_texture_view(t, view_desc(TextureFormat::Rgba8Unorm)).unwrap();
    assert_eq!(ctx.destroy_texture(t), Err(ResourceError::TextureInUse));
    assert_eq!(ctx.destroy_texture(other), Ok(()));
    assert_eq!(ctx.destroy_texture_view(v), Ok(()));
    assert_eq!(ctx.destroy_texture(t), Err(ResourceError::TextureInUse));
    assert_eq!(ctx.destroy_texture_view(w), Ok(()));
    assert_eq!(ctx.destroy_texture_view(w), Err(ResourceError::NoSuchView));
    assert_eq!(ctx.destroy_texture_view(TextureView { id: 7 }), Err(ResourceError::NoSuchView));
    assert!(ctx.textures()[t.id].alive);
    assert_eq!(ctx.destroy_texture(t), Ok(()));
    assert!(!ctx.textures()[t.id].alive);
    assert_eq!(ctx.destroy_texture(t), Err(ResourceError::NoSuchTexture));
    assert_eq!(ctx.destroy_texture(Texture { id: 9 }), Err(ResourceError::NoSuchTexture));
    assert_eq!(
        ctx.create_texture_view(t, view_desc(TextureFormat::Rgba8Unorm)),
        Err(ResourceError::NoSuchTexture)
    );
}

#[test]
fn texture_usage_sets() {
    let both = TextureUsage::target().union(TextureUsage::resource());
    assert_eq!(both, TextureUsage { copy: false, target: true, resource: true, storage: false });
    assert_eq!(TextureUsage::target().union(TextureUsage::target()), TextureUsage::target());
    assert_eq!(
        TextureUsage::resource(),
        TextureUsage { copy: false, target: false, resource: true, storage: false }
    );
    let all = TextureUsage { copy: true, target: false, resource: false, storage: true }.union(both);
    assert_eq!(all, TextureUsage { copy: true, target: true, resource: true, storage: true });
}

#[test]
fn only_the_depth_format_holds_depth() {
    assert!(TextureFormat::Depth32Float.is_depth());
    assert!(!TextureFormat::Rgba32Float.is_depth());
    assert!(!TextureFormat::Bgra8UnormSrgb.is_depth());
    assert!(!TextureFormat::R32Float.is_depth());
}

#[test]
fn whole_buffer_starts_at_zero() {
    let b = Buffer { id: 3 };
    assert_eq!(b.whole().offset, 0);
    assert_eq!(b.whole().buffer, b);
}

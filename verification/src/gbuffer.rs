//! The intermediate attachments of deferred shading: depth, position and
//! normal, each a texture with a view to render into and a sampler to read
//! it back.

use crate::context::{Context, ContextModel, TextureRecord, ViewRecord};
use crate::resources::{
    AddressMode, CompareFunction, Extent, FilterMode, Sampler, SamplerDesc, Texture,
    TextureDesc, TextureDimension, TextureFormat, TextureUsage, TextureView, TextureViewDesc,
    ViewDimension,
};
use vstd::prelude::*;

verus! {

/// The views and samplers of the intermediate attachments.
#[derive(Clone, Copy, Debug, PartialEq)]
pub struct GBuffer {
    pub depth_view: TextureView,
    pub pos_view: TextureView,
    pub normal_view: TextureView,
    pub depth_sampler: Sampler,
    pub pos_sampler: Sampler,
    pub normal_sampler: Sampler,
}

/// A two-dimensional texture of one layer and one level, `width` by
/// `height`, that passes render into and shaders read.
pub open spec fn attachment_texture(
    name: &'static str,
    format: TextureFormat,
    width: u32,
    height: u32,
) -> TextureRecord {
    TextureRecord {
        desc: TextureDesc {
            name,
            format,
            size: Extent { width, height, depth: 1 },
            array_layer_count: 1,
            mip_level_count: 1,
            dimension: TextureDimension::D2,
            usage: TextureUsage { copy: false, target: true, resource: true, storage: false },
        },
        alive: true,
    }
}

/// A two-dimensional view of the texture at place `texture`, in the
/// texture's own format.
pub open spec fn attachment_view(
    name: &'static str,
    format: TextureFormat,
    texture: int,
) -> ViewRecord {
    ViewRecord {
        texture: Texture { id: texture as usize },
        desc: TextureViewDesc { name, format, dimension: ViewDimension::D2 },
        alive: true,
    }
}

/// A sampler that clamps to the edge and takes the nearest texel.
pub open spec fn nearest_sampler(
    name: &'static str,
    compare: Option<CompareFunction>,
) -> SamplerDesc {
    SamplerDesc {
        name,
        address_mode: AddressMode::ClampToEdge,
        mag_filter: FilterMode::Nearest,
        min_filter: FilterMode::Nearest,
        mipmap_filter: FilterMode::Nearest,
        compare,
    }
}

/// The table `before` with the intermediate attachments of a surface of
/// `width` by `height` entered after what it held: a depth texture of
/// 32-bit floats, and a position and a normal texture of four 32-bit floats
/// each; a view of each; and a sampler for each, of which the depth sampler
/// compares with less-or-equal.
pub open spec fn with_gbuffer(before: ContextModel, width: u32, height: u32) -> ContextModel {
    let t = before.textures.len() as int;
    ContextModel {
        textures: before.textures.push(
            attachment_texture("depth texture", TextureFormat::Depth32Float, width, height),
        ).push(attachment_texture("pos texture", TextureFormat::Rgba32Float, width, height)).push(
            attachment_texture("normal texture", TextureFormat::Rgba32Float, width, height),
        ),
        views: before.views.push(
            attachment_view("depth view", TextureFormat::Depth32Float, t),
        ).push(attachment_view("pos view", TextureFormat::Rgba32Float, t + 1)).push(
            attachment_view("normal view", TextureFormat::Rgba32Float, t + 2),
        ),
        samplers: before.samplers.push(
            nearest_sampler("depth sampler", Some(CompareFunction::LessEqual)),
        ).push(nearest_sampler("pos sampler", None)).push(nearest_sampler("normal sampler", None)),
        ..before
    }
}

/// The handles of the intermediate attachments that were entered into a
/// table that held `views` views and `samplers` samplers before.
pub open spec fn gbuffer_at(views: nat, samplers: nat) -> GBuffer {
    GBuffer {
        depth_view: TextureView { id: views as usize },
        pos_view: TextureView { id: (views + 1) as usize },
        normal_view: TextureView { id: (views + 2) as usize },
        depth_sampler: Sampler { id: samplers as usize },
        pos_sampler: Sampler { id: (samplers + 1) as usize },
        normal_sampler: Sampler { id: (samplers + 2) as usize },
    }
}

/// Enters a texture that passes render into and shaders read, and a view of
/// all of it.
fn create_attachment(
    ctx: &mut Context,
    texture_name: &'static str,
    view_name: &'static str,
    format: TextureFormat,
    width: u32,
    height: u32,
) -> (view: TextureView)
    requires
        old(ctx).wf(),
    ensures
        final(ctx).wf(),
        view.id == old(ctx)@.views.len(),
        final(ctx)@ == (ContextModel {
            textures: old(ctx)@.textures.push(
                attachment_texture(texture_name, format, width, height),
            ),
            views: old(ctx)@.views.push(
                attachment_view(view_name, format, old(ctx)@.textures.len() as int),
            ),
            ..old(ctx)@
        }),
{
    let texture = ctx.create_texture(
        TextureDesc {
            name: texture_name,
            format,
            size: Extent { width, height, depth: 1 },
            array_layer_count: 1,
            mip_level_count: 1,
            dimension: TextureDimension::D2,
            usage: TextureUsage::target().union(TextureUsage::resource()),
        },
    );
    let view = ctx.create_texture_view(
        texture,
        TextureViewDesc { name: view_name, format, dimension: ViewDimension::D2 },
    );
    view.unwrap()
}

impl GBuffer {
    /// Enters the intermediate attachments for a surface of `width` by
    /// `height` texels.
    pub fn new(ctx: &mut Context, width: u32, height: u32) -> (g_buffer: GBuffer)
        requires
            old(ctx).wf(),
        ensures
            final(ctx).wf(),
            final(ctx)@ == with_gbuffer(old(ctx)@, width, height),
            g_buffer == gbuffer_at(old(ctx)@.views.len(), old(ctx)@.samplers.len()),
    {
        let depth_view = create_attachment(
            ctx,
            "depth texture",
            "depth view",
            TextureFormat::Depth32Float,
            width,
            height,
        );
        let depth_sampler = ctx.create_sampler(
            SamplerDesc {
                compare: Some(CompareFunction::LessEqual),
                ..SamplerDesc::named("depth sampler")
            },
        );
        let pos_view = create_attachment(
            ctx,
            "pos texture",
            "pos view",
            TextureFormat::Rgba32Float,
            width,
            height,
        );
        let pos_sampler = ctx.create_sampler(SamplerDesc::named("pos sampler"));
        let normal_view = create_attachment(
            ctx,
            "normal texture",
            "normal view",
            TextureFormat::Rgba32Float,
            width,
            height,
        );
        let normal_sampler = ctx.create_sampler(SamplerDesc::named("normal sampler"));
        GBuffer { depth_view, pos_view, normal_view, depth_sampler, pos_sampler, normal_sampler }
    }
}

} // verus!

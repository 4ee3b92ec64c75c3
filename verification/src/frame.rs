//! What is recorded for one frame: render passes, their attachments, the
//! data they bind and the draws they issue; and the rules that a pass must
//! obey against the table of resources.

use crate::context::{Context, ContextModel};
use crate::pipeline::{BindingKind, INDEX_STRIDE, VERTEX_STRIDE};
use crate::resources::{
    Buffer, BufferPiece, FinishOp, InitOp, RenderPipeline, Sampler, TextureFormat, TextureView,
};
use vstd::prelude::*;

verus! {

/// What a pass renders into.
#[derive(Clone, Copy, Debug, PartialEq, Eq, Structural)]
pub enum Attachment {
    /// The image that was acquired for presentation.
    Frame,
    /// A view of a texture of the table.
    View(TextureView),
}

/// One attachment of a pass, with what it holds when the pass begins and
/// what becomes of it when the pass ends.
#[derive(Clone, Copy, Debug, PartialEq)]
pub struct RenderTarget {
    pub view: Attachment,
    pub init_op: InitOp,
    pub finish_op: FinishOp,
}

/// What fills one slot of a pipeline's shader data.
#[derive(Clone, Copy, Debug, PartialEq, Eq, Structural)]
pub enum Bound {
    /// The uniform block: view-projection matrix, camera position and
    /// camera direction. Its contents travel beside the pass.
    Globals,
    /// A texture view and the sampler that reads it.
    Sampled { view: TextureView, sampler: Sampler },
}

/// One draw: `vertex_count` vertices from the start of the vertex buffer, or
/// `index_count` indices from the start of the index buffer where there is
/// one; `instance_count` times.
#[derive(Clone, Copy, Debug, PartialEq)]
pub struct Draw {
    pub vertex_buf: BufferPiece,
    pub index_buf: Option<BufferPiece>,
    pub vertex_count: u32,
    pub index_count: u32,
    pub instance_count: u32,
}

/// One render pass.
#[derive(Clone, Debug, PartialEq)]
pub struct Pass {
    pub name: &'static str,
    pub colors: Vec<RenderTarget>,
    pub depth_stencil: Option<RenderTarget>,
    pub pipeline: RenderPipeline,
    /// What fills the slots of the pipeline's shader data, slot by slot.
    pub data: Vec<Bound>,
    pub draws: Vec<Draw>,
}

/// The format in which `attachment` can be rendered into: that of the
/// surface for the acquired image; for a view, its own format, where the
/// view is live and its texture was created for use as a target.
pub open spec fn target_format(
    ctx: ContextModel,
    surface_format: TextureFormat,
    attachment: Attachment,
) -> Option<TextureFormat> {
    match attachment {
        Attachment::Frame => Some(surface_format),
        Attachment::View(view) => if ctx.has_view(view) && ctx.texture_of(view).usage.target {
            Some(ctx.views[view.id as int].desc.format)
        } else {
            None
        },
    }
}

/// `bound` may fill a slot of kind `kind`: the uniform block fills a plain
/// slot; a view and a sampler fill a sampled slot where the view is live,
/// its texture was created for use as a resource, the sampler is known, and
/// a sampler that compares reads a depth format.
pub open spec fn bound_fits(ctx: ContextModel, kind: BindingKind, bound: Bound) -> bool {
    match (kind, bound) {
        (BindingKind::Plain { .. }, Bound::Globals) => true,
        (BindingKind::Sampled, Bound::Sampled { view, sampler }) => {
            &&& ctx.has_view(view)
            &&& ctx.texture_of(view).usage.resource
            &&& ctx.has_sampler(sampler)
            &&& ctx.samplers[sampler.id as int].compare is Some
                ==> ctx.views[view.id as int].desc.format.depth()
        },
        _ => false,
    }
}

/// `piece` holds `count` items of `stride` bytes that the device may read:
/// its buffer is live, every write to it was made visible, and the items lie
/// within the bytes that were written.
pub open spec fn piece_holds(
    ctx: ContextModel,
    piece: BufferPiece,
    count: u32,
    stride: u32,
) -> bool {
    &&& ctx.has_buffer(piece.buffer)
    &&& !ctx.buffers[piece.buffer.id as int].dirty
    &&& piece.offset + count * stride <= ctx.buffers[piece.buffer.id as int].filled
}

/// `draw` may be issued: it draws one instance, from buffers that hold what
/// it reads.
pub open spec fn draw_valid(ctx: ContextModel, draw: Draw) -> bool {
    &&& draw.instance_count == 1
    &&& piece_holds(ctx, draw.vertex_buf, draw.vertex_count, VERTEX_STRIDE)
    &&& match draw.index_buf {
        Some(piece) => piece_holds(ctx, piece, draw.index_count, INDEX_STRIDE),
        None => draw.index_count == 0,
    }
}

/// `pass` may be recorded: its pipeline is known; its attachments are, in
/// number and format, the targets that the pipeline was created for; its
/// data fills the pipeline's slots; and each of its draws may be issued.
pub open spec fn pass_valid(ctx: ContextModel, surface_format: TextureFormat, pass: Pass) -> bool {
    let pipeline = ctx.pipelines[pass.pipeline.id as int];
    &&& ctx.has_pipeline(pass.pipeline)
    &&& pass.colors@.len() == pipeline.color_targets@.len()
    &&& forall|i: int|
        0 <= i < pass.colors@.len() ==> target_format(
            ctx,
            surface_format,
            (#[trigger] pass.colors@[i]).view,
        ) == Some(pipeline.color_targets@[i].format)
    &&& match (pass.depth_stencil, pipeline.depth_stencil) {
        (Some(target), Some(state)) => target_format(ctx, surface_format, target.view) == Some(
            state.format,
        ),
        (None, None) => true,
        _ => false,
    }
    &&& pass.data@.len() == pipeline.data_layout@.len()
    &&& forall|i: int|
        0 <= i < pass.data@.len() ==> bound_fits(
            ctx,
            pipeline.data_layout@[i].kind,
            #[trigger] pass.data@[i],
        )
    &&& forall|i: int| 0 <= i < pass.draws@.len() ==> draw_valid(ctx, #[trigger] pass.draws@[i])
}

/// The buffers that the draws read, in the order of the draws: of each draw
/// its vertex buffer, then its index buffer where it has one.
pub open spec fn buffers_of_draws(draws: Seq<Draw>) -> Seq<Buffer>
    decreases draws.len(),
{
    if draws.len() == 0 {
        Seq::empty()
    } else {
        let draw = draws.last();
        let before = buffers_of_draws(draws.drop_last()).push(draw.vertex_buf.buffer);
        match draw.index_buf {
            Some(piece) => before.push(piece.buffer),
            None => before,
        }
    }
}

/// The buffers that the passes read, in the order of the passes.
pub open spec fn buffers_of_passes(passes: Seq<Pass>) -> Seq<Buffer>
    decreases passes.len(),
{
    if passes.len() == 0 {
        Seq::empty()
    } else {
        buffers_of_passes(passes.drop_last()) + buffers_of_draws(passes.last().draws@)
    }
}

/// Collects the buffers that the passes read.
pub fn collect_buffers(passes: &Vec<Pass>) -> (buffers: Vec<Buffer>)
    ensures
        buffers@ == buffers_of_passes(passes@),
{
    let mut buffers: Vec<Buffer> = Vec::new();
    let mut p: usize = 0;
    while p < passes.len()
        invariant
            p <= passes@.len(),
            buffers@ == buffers_of_passes(passes@.take(p as int)),
        decreases passes@.len() - p,
    {
        let pass = &passes[p];
        let ghost before = buffers@;
        let mut d: usize = 0;
        while d < pass.draws.len()
            invariant
                d <= pass.draws@.len(),
                buffers@ == before + buffers_of_draws(pass.draws@.take(d as int)),
            decreases pass.draws@.len() - d,
        {
            let draw = pass.draws[d];
            proof {
                assert(pass.draws@.take(d + 1).drop_last() == pass.draws@.take(d as int));
                assert(pass.draws@.take(d + 1).last() == draw);
            }
            buffers.push(draw.vertex_buf.buffer);
            match draw.index_buf {
                Some(piece) => {
                    buffers.push(piece.buffer);
                },
                None => {},
            }
            d = d + 1;
        }
        proof {
            assert(pass.draws@.take(d as int) == pass.draws@);
            assert(passes@.take(p + 1).drop_last() == passes@.take(p as int));
            assert(passes@.take(p + 1).last() == *pass);
        }
        p = p + 1;
    }
    proof {
        assert(passes@.take(p as int) == passes@);
    }
    buffers
}

/// Tells whether `attachment` can be rendered into in the format `format`.
fn target_has_format(
    ctx: &Context,
    surface_format: TextureFormat,
    attachment: Attachment,
    format: TextureFormat,
) -> (fits: bool)
    requires
        ctx.wf(),
    ensures
        fits == (target_format(ctx@, surface_format, attachment) == Some(format)),
{
    proof {
        ctx.lemma_wf();
    }
    match attachment {
        Attachment::Frame => surface_format == format,
        Attachment::View(view) => {
            if view.id >= ctx.views().len() {
                return false;
            }
            let record = ctx.views()[view.id];
            if !record.alive {
                return false;
            }
            assert(ctx@.has_view(view));
            assert(ctx@.has_texture(ctx@.views[view.id as int].texture));
            ctx.textures()[record.texture.id].desc.usage.target && record.desc.format == format
        },
    }
}

/// Tells whether `bound` may fill a slot of kind `kind`.
fn bound_is_fit(ctx: &Context, kind: BindingKind, bound: Bound) -> (fits: bool)
    requires
        ctx.wf(),
    ensures
        fits == bound_fits(ctx@, kind, bound),
{
    proof {
        ctx.lemma_wf();
    }
    match (kind, bound) {
        (BindingKind::Plain { .. }, Bound::Globals) => true,
        (BindingKind::Sampled, Bound::Sampled { view, sampler }) => {
            if view.id >= ctx.views().len() || sampler.id >= ctx.samplers().len() {
                return false;
            }
            let record = ctx.views()[view.id];
            if !record.alive {
                return false;
            }
            assert(ctx@.has_view(view));
            assert(ctx@.has_texture(ctx@.views[view.id as int].texture));
            if !ctx.textures()[record.texture.id].desc.usage.resource {
                return false;
            }
            match ctx.samplers()[sampler.id].compare {
                Some(_) => record.desc.format.is_depth(),
                None => true,
            }
        },
        _ => false,
    }
}

/// Tells whether `piece` holds `count` items of `stride` bytes that the
/// device may read.
fn piece_is_held(ctx: &Context, piece: BufferPiece, count: u32, stride: u32) -> (held: bool)
    ensures
        held == piece_holds(ctx@, piece, count, stride),
{
    if piece.buffer.id >= ctx.buffers().len() {
        return false;
    }
    let record = ctx.buffers()[piece.buffer.id];
    if !record.alive || record.dirty {
        return false;
    }
    assert(count * stride <= 0xffff_ffff * 0xffff_ffff) by (nonlinear_arith)
        requires
            count <= 0xffff_ffff,
            stride <= 0xffff_ffff,
    ;
    let bytes: u64 = (count as u64) * (stride as u64);
    piece.offset <= record.filled && bytes <= record.filled - piece.offset
}

/// Tells whether `draw` may be issued.
fn draw_is_valid(ctx: &Context, draw: Draw) -> (valid: bool)
    ensures
        valid == draw_valid(ctx@, draw),
{
    if draw.instance_count != 1 {
        return false;
    }
    if !piece_is_held(ctx, draw.vertex_buf, draw.vertex_count, VERTEX_STRIDE) {
        return false;
    }
    match draw.index_buf {
        Some(piece) => piece_is_held(ctx, piece, draw.index_count, INDEX_STRIDE),
        None => draw.index_count == 0,
    }
}

/// Tells whether `pass` may be recorded against the table `ctx`, for a
/// surface of the format `surface_format`.
pub fn check_pass(ctx: &Context, surface_format: TextureFormat, pass: &Pass) -> (valid: bool)
    requires
        ctx.wf(),
    ensures
        valid == pass_valid(ctx@, surface_format, *pass),
{
    if pass.pipeline.id >= ctx.pipelines().len() {
        return false;
    }
    let pipeline = &ctx.pipelines()[pass.pipeline.id];
    if pass.colors.len() != pipeline.color_targets.len() {
        return false;
    }
    let mut i: usize = 0;
    while i < pass.colors.len()
        invariant
            ctx.wf(),
            i <= pass.colors@.len(),
            ctx@.has_pipeline(pass.pipeline),
            *pipeline == ctx@.pipelines[pass.pipeline.id as int],
            pass.colors@.len() == pipeline.color_targets@.len(),
            forall|k: int|
                0 <= k < i ==> target_format(
                    ctx@,
                    surface_format,
                    (#[trigger] pass.colors@[k]).view,
                ) == Some(pipeline.color_targets@[k].format),
        decreases pass.colors@.len() - i,
    {
        if !target_has_format(
            ctx,
            surface_format,
            pass.colors[i].view,
            pipeline.color_targets[i].format,
        ) {
            assert(target_format(ctx@, surface_format, pass.colors@[i as int].view) != Some(
                pipeline.color_targets@[i as int].format,
            ));
            return false;
        }
        i = i + 1;
    }
    match (pass.depth_stencil, pipeline.depth_stencil) {
        (Some(target), Some(state)) => {
            if !target_has_format(ctx, surface_format, target.view, state.format) {
                return false;
            }
        },
        (None, None) => {},
        _ => {
            return false;
        },
    }
    if pass.data.len() != pipeline.data_layout.len() {
        return false;
    }
    let mut i: usize = 0;
    while i < pass.data.len()
        invariant
            ctx.wf(),
            i <= pass.data@.len(),
            ctx@.has_pipeline(pass.pipeline),
            *pipeline == ctx@.pipelines[pass.pipeline.id as int],
            pass.data@.len() == pipeline.data_layout@.len(),
            forall|k: int|
                0 <= k < i ==> bound_fits(
                    ctx@,
                    pipeline.data_layout@[k].kind,
                    #[trigger] pass.data@[k],
                ),
        decreases pass.data@.len() - i,
    {
        if !bound_is_fit(ctx, pipeline.data_layout[i].kind, pass.data[i]) {
            assert(!bound_fits(ctx@, pipeline.data_layout@[i as int].kind, pass.data@[i as int]));
            return false;
        }
        i = i + 1;
    }
    let mut i: usize = 0;
    while i < pass.draws.len()
        invariant
            i <= pass.draws@.len(),
            forall|k: int| 0 <= k < i ==> draw_valid(ctx@, #[trigger] pass.draws@[k]),
        decreases pass.draws@.len() - i,
    {
        if !draw_is_valid(ctx, pass.draws[i]) {
            assert(!draw_valid(ctx@, pass.draws@[i as int]));
            return false;
        }
        i = i + 1;
    }
    true
}

} // verus!

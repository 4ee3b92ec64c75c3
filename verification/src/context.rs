//! The table of device resources: what was created, from what, and what
//! state each resource is in. Every operation on the device is cleared here
//! first; the table refuses what the device must not be asked to do.

use crate::pipeline::{PipelineError, RenderPipelineDesc};
use crate::resources::{
    Buffer, BufferDesc, RenderPipeline, Sampler, SamplerDesc, Shader, SyncPoint, Texture,
    TextureDesc, TextureView, TextureViewDesc,
};
use crate::timeline::{
    last_use, lemma_submit, lemma_wait, lemma_write_when_idle,
    submissions, synchronized, waited, well_numbered, DeviceOp,
};
use vstd::prelude::*;

verus! {

/// Why the table refused an operation.
#[derive(Clone, Copy, Debug, PartialEq, Eq, Structural)]
pub enum ResourceError {
    /// The handle names no live buffer.
    NoSuchBuffer,
    /// The handle names no live texture.
    NoSuchTexture,
    /// The handle names no live view.
    NoSuchView,
    /// The sync point names no submission.
    NoSuchSyncPoint,
    /// The buffer's memory is out of the processor's reach.
    NotHostVisible,
    /// The write would end past the buffer's size.
    OutOfBounds,
    /// A submission that reads the buffer has not been waited for.
    InFlight,
    /// A live view still shows the texture.
    TextureInUse,
    /// The buffer holds writes that were not made visible to the device.
    Unsynced,
    /// No number is left for another submission.
    TimelineFull,
}

/// A buffer and its state.
#[derive(Clone, Copy, Debug, PartialEq)]
pub struct BufferRecord {
    pub desc: BufferDesc,
    /// The buffer was not destroyed.
    pub alive: bool,
    /// The number of bytes, from the start, that were written.
    pub filled: u64,
    /// The buffer holds writes that the device may not see yet.
    pub dirty: bool,
    /// The number of the latest submission that reads the buffer, or zero.
    pub last_use: u64,
}

/// A texture and its state.
#[derive(Clone, Copy, Debug, PartialEq)]
pub struct TextureRecord {
    pub desc: TextureDesc,
    /// The texture was not destroyed.
    pub alive: bool,
}

/// A view, the texture it shows, and its state.
#[derive(Clone, Copy, Debug, PartialEq)]
pub struct ViewRecord {
    pub texture: Texture,
    pub desc: TextureViewDesc,
    /// The view was not destroyed.
    pub alive: bool,
}

/// The table of device resources. A handle's `id` is the place of its
/// resource in the table of its kind.
pub struct Context {
    buffers: Vec<BufferRecord>,
    textures: Vec<TextureRecord>,
    views: Vec<ViewRecord>,
    samplers: Vec<SamplerDesc>,
    shaders: Vec<&'static str>,
    pipelines: Vec<RenderPipelineDesc>,
    submitted: u64,
    completed: u64,
    log: Ghost<Seq<DeviceOp>>,
}

/// What a `Context` stands for.
pub struct ContextModel {
    pub buffers: Seq<BufferRecord>,
    pub textures: Seq<TextureRecord>,
    pub views: Seq<ViewRecord>,
    pub samplers: Seq<SamplerDesc>,
    /// The path of each shader's source.
    pub shaders: Seq<&'static str>,
    pub pipelines: Seq<RenderPipelineDesc>,
    /// Every write, submission and wait so far, in order.
    pub log: Seq<DeviceOp>,
}

impl ContextModel {
    /// `buffer` names a live buffer.
    pub open spec fn has_buffer(self, buffer: Buffer) -> bool {
        buffer.id < self.buffers.len() && self.buffers[buffer.id as int].alive
    }

    /// `texture` names a live texture.
    pub open spec fn has_texture(self, texture: Texture) -> bool {
        texture.id < self.textures.len() && self.textures[texture.id as int].alive
    }

    /// `view` names a live view.
    pub open spec fn has_view(self, view: TextureView) -> bool {
        view.id < self.views.len() && self.views[view.id as int].alive
    }

    /// `sampler` names a sampler.
    pub open spec fn has_sampler(self, sampler: Sampler) -> bool {
        sampler.id < self.samplers.len()
    }

    /// `shader` names a shader.
    pub open spec fn has_shader(self, shader: Shader) -> bool {
        shader.id < self.shaders.len()
    }

    /// `pipeline` names a pipeline.
    pub open spec fn has_pipeline(self, pipeline: RenderPipeline) -> bool {
        pipeline.id < self.pipelines.len()
    }

    /// The description of the texture that the live view `view` shows.
    pub open spec fn texture_of(self, view: TextureView) -> TextureDesc {
        self.textures[self.views[view.id as int].texture.id as int].desc
    }

    /// A submission that reads `buffer` has not been waited for.
    pub open spec fn in_flight(self, buffer: Buffer) -> bool {
        last_use(self.log, buffer.id as int) > waited(self.log)
    }

    /// A live view shows `texture`.
    pub open spec fn texture_in_use(self, texture: Texture) -> bool {
        exists|v: int|
            0 <= v < self.views.len() && (#[trigger] self.views[v]).alive && self.views[v].texture
                == texture
    }

    /// What becomes of a request to write `len` bytes at `offset` of
    /// `buffer`: the first of these that holds decides. The buffer is not
    /// live; its memory is out of the processor's reach; the write ends past
    /// its size; a submission that reads it has not been waited for. If none
    /// holds the write is granted.
    pub open spec fn write_outcome(self, buffer: Buffer, offset: u64, len: u64) -> Result<
        (),
        ResourceError,
    > {
        if !self.has_buffer(buffer) {
            Err(ResourceError::NoSuchBuffer)
        } else if !self.buffers[buffer.id as int].desc.memory.host_visible() {
            Err(ResourceError::NotHostVisible)
        } else if offset + len > self.buffers[buffer.id as int].desc.size {
            Err(ResourceError::OutOfBounds)
        } else if self.in_flight(buffer) {
            Err(ResourceError::InFlight)
        } else {
            Ok(())
        }
    }

    /// What becomes of a request to submit work that reads `buffers`: the
    /// first of these that holds decides. One of them is not live; one of
    /// them holds writes that were not made visible; no number is left. If
    /// none holds the work is submitted.
    pub open spec fn submit_outcome(self, buffers: Seq<Buffer>) -> Result<(), ResourceError> {
        if exists|i: int| 0 <= i < buffers.len() && !self.has_buffer(#[trigger] buffers[i]) {
            Err(ResourceError::NoSuchBuffer)
        } else if exists|i: int|
            0 <= i < buffers.len() && self.buffers[(#[trigger] buffers[i]).id as int].dirty {
            Err(ResourceError::Unsynced)
        } else if submissions(self.log) >= u64::MAX {
            Err(ResourceError::TimelineFull)
        } else {
            Ok(())
        }
    }
}

/// The state of a buffer after a write of `len` bytes at `offset`: where the
/// write starts within or right after the bytes already written, they grow
/// to the end of the write; the buffer now holds writes to make visible.
pub open spec fn record_after_write(record: BufferRecord, offset: u64, len: u64) -> BufferRecord {
    BufferRecord {
        filled: if offset <= record.filled && offset + len > record.filled {
            (offset + len) as u64
        } else {
            record.filled
        },
        dirty: true,
        ..record
    }
}

/// The handles' places in the buffer table.
pub open spec fn buffer_ids(buffers: Seq<Buffer>) -> Seq<int> {
    Seq::new(buffers.len(), |i: int| buffers[i].id as int)
}

/// The buffer table after a submission numbered `point` that reads
/// `buffers`: each of these was last used by that submission.
pub open spec fn records_after_submit(
    records: Seq<BufferRecord>,
    buffers: Seq<Buffer>,
    point: u64,
) -> Seq<BufferRecord> {
    Seq::new(
        records.len(),
        |b: int|
            if buffer_ids(buffers).contains(b) {
                BufferRecord { last_use: point, ..records[b] }
            } else {
                records[b]
            },
    )
}

impl View for Context {
    type V = ContextModel;

    closed spec fn view(&self) -> ContextModel {
        ContextModel {
            buffers: self.buffers@,
            textures: self.textures@,
            views: self.views@,
            samplers: self.samplers@,
            shaders: self.shaders@,
            pipelines: self.pipelines@,
            log: self.log@,
        }
    }
}

/// Bounds that hold of the counters of a well-numbered log.
proof fn lemma_counter_bounds(log: Seq<DeviceOp>, buffer: int)
    requires
        well_numbered(log),
    ensures
        0 <= waited(log) <= submissions(log),
        0 <= last_use(log, buffer) <= submissions(log),
    decreases log.len(),
{
    if log.len() > 0 {
        let front = log.drop_last();
        let n = log.len() - 1;
        assert forall|i: int| 0 <= i < front.len() implies match #[trigger] front[i] {
            DeviceOp::Submit { point, .. } => point == submissions(front.take(i)) + 1,
            DeviceOp::Wait { point } => 1 <= point <= submissions(front.take(i)),
            DeviceOp::Write { .. } => true,
        } by {
            assert(front[i] == log[i]);
            assert(front.take(i) == log.take(i));
        }
        lemma_counter_bounds(front, buffer);
        assert(log.take(n) == front);
        assert(log[n] == log.last());
    }
}

impl Context {
    /// The table is consistent: a live view shows a live texture; no buffer
    /// holds more written bytes than its size; the counters agree with the
    /// log; and the log is synchronized.
    pub closed spec fn wf(&self) -> bool {
        &&& forall|v: int|
            0 <= v < self.views@.len() ==> (#[trigger] self.views@[v]).texture.id
                < self.textures@.len()
        &&& forall|v: int|
            0 <= v < self.views@.len() && (#[trigger] self.views@[v]).alive
                ==> self.textures@[self.views@[v].texture.id as int].alive
        &&& forall|b: int|
            0 <= b < self.buffers@.len() ==> (#[trigger] self.buffers@[b]).filled
                <= self.buffers@[b].desc.size
        &&& forall|b: int|
            0 <= b < self.buffers@.len() ==> (#[trigger] self.buffers@[b]).last_use == last_use(
                self.log@,
                b,
            )
        &&& forall|b: int| b >= self.buffers@.len() ==> #[trigger] last_use(self.log@, b) == 0
        &&& forall|p: int|
            0 <= p < self.pipelines@.len() ==> (#[trigger] self.pipelines@[p]).valid(
                self.shaders@.len(),
            )
        &&& self.submitted == submissions(self.log@)
        &&& self.completed == waited(self.log@)
        &&& well_numbered(self.log@)
        &&& synchronized(self.log@)
    }

    /// A consistent table keeps its views on live textures and its log
    /// synchronized.
    pub proof fn lemma_wf(&self)
        requires
            self.wf(),
        ensures
            synchronized(self@.log),
            well_numbered(self@.log),
            0 <= waited(self@.log) <= submissions(self@.log),
            forall|b: int| 0 <= #[trigger] last_use(self@.log, b) <= submissions(self@.log),
            forall|b: int| b >= self@.buffers.len() ==> #[trigger] last_use(self@.log, b) == 0,
            forall|v: TextureView|
                self@.has_view(v) ==> self@.has_texture(
                    #[trigger] self@.views[v.id as int].texture,
                ),
            forall|b: int|
                0 <= b < self@.buffers.len() ==> (#[trigger] self@.buffers[b]).filled
                    <= self@.buffers[b].desc.size,
            forall|b: int|
                0 <= b < self@.buffers.len() ==> (#[trigger] self@.buffers[b]).last_use
                    == last_use(self@.log, b),
            forall|p: int|
                0 <= p < self@.pipelines.len() ==> (#[trigger] self@.pipelines[p]).valid(
                    self@.shaders.len(),
                ),
    {
        lemma_counter_bounds(self.log@, 0);
        assert forall|b: int| 0 <= #[trigger] last_use(self@.log, b) <= submissions(
            self@.log,
        ) by {
            lemma_counter_bounds(self.log@, b);
        }
    }

    /// An empty table.
    pub fn new() -> (ctx: Context)
        ensures
            ctx.wf(),
            ctx@.buffers.len() == 0,
            ctx@.textures.len() == 0,
            ctx@.views.len() == 0,
            ctx@.samplers.len() == 0,
            ctx@.shaders.len() == 0,
            ctx@.pipelines.len() == 0,
            ctx@.log.len() == 0,
    {
        Context {
            buffers: Vec::new(),
            textures: Vec::new(),
            views: Vec::new(),
            samplers: Vec::new(),
            shaders: Vec::new(),
            pipelines: Vec::new(),
            submitted: 0,
            completed: 0,
            log: Ghost(Seq::empty()),
        }
    }

    /// Enters a new buffer: live, with nothing written.
    pub fn create_buffer(&mut self, desc: BufferDesc) -> (buffer: Buffer)
        requires
            old(self).wf(),
        ensures
            final(self).wf(),
            buffer.id == old(self)@.buffers.len(),
            final(self)@ == (ContextModel {
                buffers: old(self)@.buffers.push(
                    BufferRecord { desc, alive: true, filled: 0, dirty: false, last_use: 0 },
                ),
                ..old(self)@
            }),
    {
        let id = self.buffers.len();
        self.buffers.push(BufferRecord { desc, alive: true, filled: 0, dirty: false, last_use: 0 });
        Buffer { id }
    }

    /// Clears a write of `len` bytes at byte `offset` of `buffer`, or says
    /// why not. A refused write leaves the table as it was.
    pub fn write_buffer(&mut self, buffer: Buffer, offset: u64, len: u64) -> (granted: Result<
        (),
        ResourceError,
    >)
        requires
            old(self).wf(),
        ensures
            final(self).wf(),
            granted == old(self)@.write_outcome(buffer, offset, len),
            granted is Err ==> final(self)@ == old(self)@,
            granted is Ok ==> final(self)@ == (ContextModel {
                buffers: old(self)@.buffers.update(
                    buffer.id as int,
                    record_after_write(old(self)@.buffers[buffer.id as int], offset, len),
                ),
                log: old(self)@.log.push(DeviceOp::Write { buffer: buffer.id as int }),
                ..old(self)@
            }),
    {
        if buffer.id >= self.buffers.len() {
            return Err(ResourceError::NoSuchBuffer);
        }
        let record = self.buffers[buffer.id];
        if !record.alive {
            return Err(ResourceError::NoSuchBuffer);
        }
        if !record.desc.memory.is_host_visible() {
            return Err(ResourceError::NotHostVisible);
        }
        if len > record.desc.size || offset > record.desc.size - len {
            return Err(ResourceError::OutOfBounds);
        }
        if record.last_use > self.completed {
            return Err(ResourceError::InFlight);
        }
        let end = offset + len;
        let filled = if offset <= record.filled && end > record.filled {
            end
        } else {
            record.filled
        };
        self.buffers.set(buffer.id, BufferRecord { filled, dirty: true, ..record });
        proof {
            let log = self.log@;
            let op = DeviceOp::Write { buffer: buffer.id as int };
            lemma_write_when_idle(log, buffer.id as int);
            assert forall|b: int| 0 <= b < self.buffers@.len() implies (
            #[trigger] self.buffers@[b]).last_use == last_use(log.push(op), b) by {
                assert(old(self).buffers@[b].last_use == last_use(log, b));
            }
            assert forall|b: int| b >= self.buffers@.len() implies #[trigger] last_use(
                log.push(op),
                b,
            ) == 0 by {
                assert(last_use(log, b) == 0);
            }
            self.log@ = log.push(op);
        }
        Ok(())
    }

    /// Makes the writes to `buffer` visible to the device.
    pub fn sync_buffer(&mut self, buffer: Buffer) -> (done: Result<(), ResourceError>)
        requires
            old(self).wf(),
        ensures
            final(self).wf(),
            done is Ok <==> old(self)@.has_buffer(buffer),
            done is Err ==> done == Err::<(), ResourceError>(ResourceError::NoSuchBuffer)
                && final(self)@ == old(self)@,
            done is Ok ==> final(self)@ == (ContextModel {
                buffers: old(self)@.buffers.update(
                    buffer.id as int,
                    BufferRecord { dirty: false, ..old(self)@.buffers[buffer.id as int] },
                ),
                ..old(self)@
            }),
    {
        if buffer.id >= self.buffers.len() {
            return Err(ResourceError::NoSuchBuffer);
        }
        let record = self.buffers[buffer.id];
        if !record.alive {
            return Err(ResourceError::NoSuchBuffer);
        }
        self.buffers.set(buffer.id, BufferRecord { dirty: false, ..record });
        Ok(())
    }

    /// Destroys `buffer`, unless a submission that reads it has not been
    /// waited for.
    pub fn destroy_buffer(&mut self, buffer: Buffer) -> (done: Result<(), ResourceError>)
        requires
            old(self).wf(),
        ensures
            final(self).wf(),
            done == (if !old(self)@.has_buffer(buffer) {
                Err::<(), ResourceError>(ResourceError::NoSuchBuffer)
            } else if old(self)@.in_flight(buffer) {
                Err(ResourceError::InFlight)
            } else {
                Ok(())
            }),
            done is Err ==> final(self)@ == old(self)@,
            done is Ok ==> final(self)@ == (ContextModel {
                buffers: old(self)@.buffers.update(
                    buffer.id as int,
                    BufferRecord { alive: false, ..old(self)@.buffers[buffer.id as int] },
                ),
                ..old(self)@
            }),
    {
        if buffer.id >= self.buffers.len() {
            return Err(ResourceError::NoSuchBuffer);
        }
        let record = self.buffers[buffer.id];
        if !record.alive {
            return Err(ResourceError::NoSuchBuffer);
        }
        if record.last_use > self.completed {
            return Err(ResourceError::InFlight);
        }
        self.buffers.set(buffer.id, BufferRecord { alive: false, ..record });
        Ok(())
    }

    /// Enters a new texture.
    pub fn create_texture(&mut self, desc: TextureDesc) -> (texture: Texture)
        requires
            old(self).wf(),
        ensures
            final(self).wf(),
            texture.id == old(self)@.textures.len(),
            final(self)@ == (ContextModel {
                textures: old(self)@.textures.push(TextureRecord { desc, alive: true }),
                ..old(self)@
            }),
    {
        let id = self.textures.len();
        self.textures.push(TextureRecord { desc, alive: true });
        Texture { id }
    }

    /// Enters a new view of the live texture `texture`.
    pub fn create_texture_view(&mut self, texture: Texture, desc: TextureViewDesc) -> (view: Result<
        TextureView,
        ResourceError,
    >)
        requires
            old(self).wf(),
        ensures
            final(self).wf(),
            view is Ok <==> old(self)@.has_texture(texture),
            view matches Err(e) ==> e == ResourceError::NoSuchTexture && final(self)@ == old(
                self,
            )@,
            view matches Ok(v) ==> v.id == old(self)@.views.len() && final(self)@
                == (ContextModel {
                views: old(self)@.views.push(ViewRecord { texture, desc, alive: true }),
                ..old(self)@
            }),
    {
        if texture.id >= self.textures.len() {
            return Err(ResourceError::NoSuchTexture);
        }
        if !self.textures[texture.id].alive {
            return Err(ResourceError::NoSuchTexture);
        }
        let id = self.views.len();
        self.views.push(ViewRecord { texture, desc, alive: true });
        Ok(TextureView { id })
    }

    /// Destroys `view`.
    pub fn destroy_texture_view(&mut self, view: TextureView) -> (done: Result<(), ResourceError>)
        requires
            old(self).wf(),
        ensures
            final(self).wf(),
            done is Ok <==> old(self)@.has_view(view),
            done is Err ==> done == Err::<(), ResourceError>(ResourceError::NoSuchView)
                && final(self)@ == old(self)@,
            done is Ok ==> final(self)@ == (ContextModel {
                views: old(self)@.views.update(
                    view.id as int,
                    ViewRecord { alive: false, ..old(self)@.views[view.id as int] },
                ),
                ..old(self)@
            }),
    {
        if view.id >= self.views.len() {
            return Err(ResourceError::NoSuchView);
        }
        let record = self.views[view.id];
        if !record.alive {
            return Err(ResourceError::NoSuchView);
        }
        self.views.set(view.id, ViewRecord { alive: false, ..record });
        Ok(())
    }

    /// Destroys `texture`, unless a live view still shows it.
    pub fn destroy_texture(&mut self, texture: Texture) -> (done: Result<(), ResourceError>)
        requires
            old(self).wf(),
        ensures
            final(self).wf(),
            done == (if !old(self)@.has_texture(texture) {
                Err::<(), ResourceError>(ResourceError::NoSuchTexture)
            } else if old(self)@.texture_in_use(texture) {
                Err(ResourceError::TextureInUse)
            } else {
                Ok(())
            }),
            done is Err ==> final(self)@ == old(self)@,
            done is Ok ==> final(self)@ == (ContextModel {
                textures: old(self)@.textures.update(
                    texture.id as int,
                    TextureRecord { alive: false, ..old(self)@.textures[texture.id as int] },
                ),
                ..old(self)@
            }),
    {
        if texture.id >= self.textures.len() {
            return Err(ResourceError::NoSuchTexture);
        }
        let record = self.textures[texture.id];
        if !record.alive {
            return Err(ResourceError::NoSuchTexture);
        }
        let mut v: usize = 0;
        while v < self.views.len()
            invariant
                v <= self.views@.len(),
                self.wf(),
                *self == *old(self),
                forall|w: int|
                    0 <= w < v ==> !((#[trigger] self.views@[w]).alive && self.views@[w].texture
                        == texture),
            decreases self.views@.len() - v,
        {
            let shown = self.views[v];
            if shown.alive && shown.texture.id == texture.id {
                return Err(ResourceError::TextureInUse);
            }
            v = v + 1;
        }
        self.textures.set(texture.id, TextureRecord { alive: false, ..record });
        Ok(())
    }

    /// Enters a new sampler.
    pub fn create_sampler(&mut self, desc: SamplerDesc) -> (sampler: Sampler)
        requires
            old(self).wf(),
        ensures
            final(self).wf(),
            sampler.id == old(self)@.samplers.len(),
            final(self)@ == (ContextModel {
                samplers: old(self)@.samplers.push(desc),
                ..old(self)@
            }),
    {
        let id = self.samplers.len();
        self.samplers.push(desc);
        Sampler { id }
    }

    /// Enters a new shader, whose source is to be read from `path`.
    pub fn create_shader(&mut self, path: &'static str) -> (shader: Shader)
        requires
            old(self).wf(),
        ensures
            final(self).wf(),
            shader.id == old(self)@.shaders.len(),
            final(self)@ == (ContextModel {
                shaders: old(self)@.shaders.push(path),
                ..old(self)@
            }),
    {
        let id = self.shaders.len();
        self.shaders.push(path);
        Shader { id }
    }

    /// Checks a pipeline's description against the vertex layout and the
    /// attachment formats it names, and enters the pipeline where the checks
    /// pass. A refused description leaves the table as it was.
    pub fn create_render_pipeline(&mut self, desc: RenderPipelineDesc) -> (pipeline: Result<
        RenderPipeline,
        PipelineError,
    >)
        requires
            old(self).wf(),
        ensures
            final(self).wf(),
            match pipeline {
                Ok(p) => desc.valid(old(self)@.shaders.len()) && p.id == old(self)@.pipelines.len()
                    && final(self)@ == (ContextModel {
                    pipelines: old(self)@.pipelines.push(desc),
                    ..old(self)@
                }),
                Err(e) => desc.explains(old(self)@.shaders.len(), Err(e)) && final(self)@ == old(
                    self,
                )@,
            },
    {
        match desc.validate(self.shaders.len()) {
            Ok(()) => {},
            Err(e) => {
                return Err(e);
            },
        }
        let id = self.pipelines.len();
        self.pipelines.push(desc);
        Ok(RenderPipeline { id })
    }

    /// Submits work that reads `buffers`, or says why not. A refused
    /// submission leaves the table as it was. The sync point of a submission
    /// is its number.
    pub fn submit(&mut self, buffers: &Vec<Buffer>) -> (point: Result<SyncPoint, ResourceError>)
        requires
            old(self).wf(),
        ensures
            final(self).wf(),
            point is Ok <==> old(self)@.submit_outcome(buffers@) is Ok,
            point matches Err(e) ==> old(self)@.submit_outcome(buffers@) == Err::<
                (),
                ResourceError,
            >(e) && final(self)@ == old(self)@,
            point matches Ok(sp) ==> sp.progress == submissions(old(self)@.log) + 1 && final(self)@
                == (ContextModel {
                buffers: records_after_submit(old(self)@.buffers, buffers@, sp.progress),
                log: old(self)@.log.push(
                    DeviceOp::Submit { point: sp.progress as int, buffers: buffer_ids(buffers@) },
                ),
                ..old(self)@
            }),
    {
        let mut i: usize = 0;
        while i < buffers.len()
            invariant
                i <= buffers@.len(),
                self.wf(),
                *self == *old(self),
                forall|k: int| 0 <= k < i ==> self@.has_buffer(#[trigger] buffers@[k]),
            decreases buffers@.len() - i,
        {
            let id = buffers[i].id;
            if id >= self.buffers.len() {
                return Err(ResourceError::NoSuchBuffer);
            }
            if !self.buffers[id].alive {
                return Err(ResourceError::NoSuchBuffer);
            }
            i = i + 1;
        }
        let mut i: usize = 0;
        while i < buffers.len()
            invariant
                i <= buffers@.len(),
                self.wf(),
                *self == *old(self),
                forall|k: int| 0 <= k < buffers@.len() ==> self@.has_buffer(#[trigger] buffers@[k]),
                forall|k: int|
                    0 <= k < i ==> !self@.buffers[(#[trigger] buffers@[k]).id as int].dirty,
            decreases buffers@.len() - i,
        {
            if self.buffers[buffers[i].id].dirty {
                return Err(ResourceError::Unsynced);
            }
            i = i + 1;
        }
        if self.submitted == u64::MAX {
            return Err(ResourceError::TimelineFull);
        }
        let number = self.submitted + 1;
        let ghost before = self.buffers@;
        let ghost ids = buffer_ids(buffers@);
        let mut i: usize = 0;
        while i < buffers.len()
            invariant
                i <= buffers@.len(),
                ids == buffer_ids(buffers@),
                self.buffers@.len() == before.len(),
                self.textures == old(self).textures,
                self.views == old(self).views,
                self.samplers == old(self).samplers,
                self.shaders == old(self).shaders,
                self.pipelines == old(self).pipelines,
                self.log == old(self).log,
                self.submitted == old(self).submitted,
                self.completed == old(self).completed,
                forall|k: int|
                    0 <= k < buffers@.len() ==> (#[trigger] buffers@[k]).id < before.len(),
                forall|b: int|
                    0 <= b < before.len() ==> #[trigger] self.buffers@[b] == (if ids.take(
                        i as int,
                    ).contains(b) {
                        BufferRecord { last_use: number, ..before[b] }
                    } else {
                        before[b]
                    }),
            decreases buffers@.len() - i,
        {
            let id = buffers[i].id;
            let record = self.buffers[id];
            self.buffers.set(id, BufferRecord { last_use: number, ..record });
            proof {
                let seen = ids.take(i as int);
                let next = ids.take(i + 1);
                assert(next == seen.push(id as int));
                assert(ids[i as int] == id);
                assert forall|b: int| 0 <= b < before.len() implies #[trigger] self.buffers@[b]
                    == (if next.contains(b) {
                    BufferRecord { last_use: number, ..before[b] }
                } else {
                    before[b]
                }) by {
                    if b == id {
                        assert(next[i as int] == b);
                    } else if seen.contains(b) {
                        let w = choose|w: int| 0 <= w < seen.len() && seen[w] == b;
                        assert(next[w] == b);
                    } else if next.contains(b) {
                        let w = choose|w: int| 0 <= w < next.len() && next[w] == b;
                        if w < i {
                            assert(seen[w] == b);
                        }
                    }
                }
            }
            i = i + 1;
        }
        self.submitted = number;
        proof {
            assert(ids.take(i as int) == ids);
            assert(self.buffers@ =~= records_after_submit(before, buffers@, number));
            lemma_submit(self.log@, ids);
            let op = DeviceOp::Submit { point: number as int, buffers: ids };
            let log = self.log@;
            assert(log.push(op).drop_last() == log);
            assert forall|b: int| 0 <= b < before.len() implies (
            #[trigger] self.buffers@[b]).last_use == last_use(log.push(op), b) by {
                lemma_counter_bounds(log, b);
            }
            assert forall|b: int| b >= before.len() implies #[trigger] last_use(log.push(op), b)
                == 0 by {
                if ids.contains(b) {
                    let w = choose|w: int| 0 <= w < ids.len() && ids[w] == b;
                    assert(buffers@[w].id == b);
                    assert(buffers@[w].id < before.len());
                }
                assert(last_use(log, b) == 0);
            }
            self.log@ = log.push(op);
        }
        Ok(SyncPoint { progress: number })
    }

    /// Records that the processor waited until the submission of `point` had
    /// finished, and with it every submission before.
    pub fn wait_for(&mut self, point: SyncPoint) -> (done: Result<(), ResourceError>)
        requires
            old(self).wf(),
        ensures
            final(self).wf(),
            done is Ok <==> 1 <= point.progress <= submissions(old(self)@.log),
            done is Err ==> done == Err::<(), ResourceError>(ResourceError::NoSuchSyncPoint)
                && final(self)@ == old(self)@,
            done is Ok ==> final(self)@ == (ContextModel {
                log: old(self)@.log.push(DeviceOp::Wait { point: point.progress as int }),
                ..old(self)@
            }),
    {
        if point.progress == 0 || point.progress > self.submitted {
            return Err(ResourceError::NoSuchSyncPoint);
        }
        if point.progress > self.completed {
            self.completed = point.progress;
        }
        proof {
            let log = self.log@;
            let op = DeviceOp::Wait { point: point.progress as int };
            lemma_wait(log, point.progress as int);
            assert(log.push(op).drop_last() == log);
            assert forall|b: int| 0 <= b < self.buffers@.len() implies (
            #[trigger] self.buffers@[b]).last_use == last_use(log.push(op), b) by {
                assert(old(self).buffers@[b].last_use == last_use(log, b));
            }
            assert forall|b: int| b >= self.buffers@.len() implies #[trigger] last_use(
                log.push(op),
                b,
            ) == 0 by {
                assert(last_use(log, b) == 0);
            }
            self.log@ = log.push(op);
        }
        Ok(())
    }

    /// Tells whether a submission that reads `buffer` has not been waited for.
    pub fn is_in_flight(&self, buffer: Buffer) -> (busy: bool)
        requires
            self.wf(),
            self@.has_buffer(buffer),
        ensures
            busy == self@.in_flight(buffer),
    {
        self.buffers[buffer.id].last_use > self.completed
    }

    /// The number of submissions so far.
    pub fn submitted(&self) -> (count: u64)
        requires
            self.wf(),
        ensures
            count == submissions(self@.log),
    {
        self.submitted
    }

    /// The latest submission that was waited for, or zero.
    pub fn completed(&self) -> (point: u64)
        requires
            self.wf(),
        ensures
            point == waited(self@.log),
    {
        self.completed
    }

    /// The buffer table.
    pub fn buffers(&self) -> (records: &Vec<BufferRecord>)
        ensures
            records@ == self@.buffers,
    {
        &self.buffers
    }

    /// The texture table.
    pub fn textures(&self) -> (records: &Vec<TextureRecord>)
        ensures
            records@ == self@.textures,
    {
        &self.textures
    }

    /// The view table.
    pub fn views(&self) -> (records: &Vec<ViewRecord>)
        ensures
            records@ == self@.views,
    {
        &self.views
    }

    /// The sampler table.
    pub fn samplers(&self) -> (records: &Vec<SamplerDesc>)
        ensures
            records@ == self@.samplers,
    {
        &self.samplers
    }

    /// The pipeline table.
    pub fn pipelines(&self) -> (records: &Vec<RenderPipelineDesc>)
        ensures
            records@ == self@.pipelines,
    {
        &self.pipelines
    }

    /// The shader table: the path of each shader's source.
    pub fn shaders(&self) -> (paths: &Vec<&'static str>)
        ensures
            paths@ == self@.shaders,
    {
        &self.shaders
    }
}

/// No write to a buffer stands between a submission that reads the buffer
/// and the first wait that ends that submission: in the log of a consistent
/// table, whenever operation `i` submits work that reads a buffer and a
/// later operation `j` writes to it, a wait that ends the submission stands
/// between the two.
pub proof fn lemma_no_write_in_flight(ctx: Context, i: int, j: int) -> (k: int)
    requires
        ctx.wf(),
        0 <= i < j < ctx@.log.len(),
        ctx@.log[i] is Submit,
        ctx@.log[j] is Write,
        ctx@.log[i]->Submit_buffers.contains(ctx@.log[j]->Write_buffer),
    ensures
        i < k < j,
        ctx@.log[k] is Wait,
        ctx@.log[k]->Wait_point >= ctx@.log[i]->Submit_point,
{
    let log = ctx@.log;
    let point = log[i]->Submit_point;
    choose|k: int| i < k < j && #[trigger] crate::timeline::wait_covers(log, k, point)
}

} // verus!

//! Meshes on the device: the buffers that hold them and how they are filled.

use crate::context::{BufferRecord, Context, ContextModel};
use crate::mesh::{flat_vertex, CpuMesh, Vertex};
use crate::pipeline::{INDEX_STRIDE, VERTEX_STRIDE};
use crate::resources::{Buffer, BufferDesc, BufferPiece, Memory};
use crate::timeline::DeviceOp;
use vstd::prelude::*;

verus! {

/// A mesh on the device: its vertex buffer, its index buffer if it has one,
/// and how many vertices and indices they hold.
#[derive(Clone, Copy, Debug, PartialEq)]
pub struct Mesh {
    pub vertex_buf: BufferPiece,
    pub index_buf: Option<BufferPiece>,
    pub num_vertices: usize,
    pub num_indices: usize,
}

/// The state of a buffer in shared memory that was created with `size`
/// bytes, written in full, and made visible to the device.
pub open spec fn filled_buffer(name: &'static str, size: u64) -> BufferRecord {
    BufferRecord {
        desc: BufferDesc { name, size, memory: Memory::Shared },
        alive: true,
        filled: size,
        dirty: false,
        last_use: 0,
    }
}

impl Mesh {
    /// The buffers of the mesh are live, hold exactly its vertices and
    /// indices, and every write to them was made visible; the counts fit a
    /// draw.
    pub open spec fn ready(self, ctx: ContextModel) -> bool {
        &&& self.num_vertices <= u32::MAX
        &&& self.num_indices <= u32::MAX
        &&& self.vertex_buf.offset == 0
        &&& ctx.has_buffer(self.vertex_buf.buffer)
        &&& !ctx.buffers[self.vertex_buf.buffer.id as int].dirty
        &&& ctx.buffers[self.vertex_buf.buffer.id as int].desc.size == self.num_vertices
            * VERTEX_STRIDE
        &&& ctx.buffers[self.vertex_buf.buffer.id as int].filled == self.num_vertices
            * VERTEX_STRIDE
        &&& match self.index_buf {
            Some(piece) => {
                &&& piece.offset == 0
                &&& ctx.has_buffer(piece.buffer)
                &&& !ctx.buffers[piece.buffer.id as int].dirty
                &&& ctx.buffers[piece.buffer.id as int].desc.size == self.num_indices * INDEX_STRIDE
                &&& ctx.buffers[piece.buffer.id as int].filled == self.num_indices * INDEX_STRIDE
            },
            None => self.num_indices == 0,
        }
    }
}

/// Enters a buffer of `count` items of `stride` bytes each: created in
/// shared memory, written in full and made visible to the device.
pub fn upload_items(ctx: &mut Context, name: &'static str, count: usize, stride: u32) -> (buffer:
    Buffer)
    requires
        old(ctx).wf(),
        count <= u32::MAX,
    ensures
        final(ctx).wf(),
        buffer.id == old(ctx)@.buffers.len(),
        final(ctx)@ == (ContextModel {
            buffers: old(ctx)@.buffers.push(filled_buffer(name, (count * stride) as u64)),
            log: old(ctx)@.log.push(DeviceOp::Write { buffer: buffer.id as int }),
            ..old(ctx)@
        }),
{
    assert(count * stride <= 0xffff_ffff * 0xffff_ffff) by (nonlinear_arith)
        requires
            count <= 0xffff_ffff,
            stride <= 0xffff_ffff,
    ;
    let size: u64 = (count as u64) * (stride as u64);
    let buffer = ctx.create_buffer(BufferDesc { name, size, memory: Memory::Shared });
    proof {
        ctx.lemma_wf();
    }
    let written = ctx.write_buffer(buffer, 0, size);
    assert(written is Ok);
    let synced = ctx.sync_buffer(buffer);
    assert(synced is Ok);
    proof {
        assert(ctx@.buffers =~= old(ctx)@.buffers.push(filled_buffer(name, size)));
    }
    buffer
}

/// Enters a vertex buffer for `vertices`: created in shared memory with 24
/// bytes for each vertex, written in full and made visible. The mesh has no
/// index buffer: it is drawn as a list of triangles.
pub fn upload_vertices<P>(vertices: &Vec<Vertex<P>>, ctx: &mut Context) -> (mesh: Mesh)
    requires
        old(ctx).wf(),
        vertices@.len() <= u32::MAX,
    ensures
        final(ctx).wf(),
        mesh == (Mesh {
            vertex_buf: BufferPiece {
                buffer: Buffer { id: old(ctx)@.buffers.len() as usize },
                offset: 0,
            },
            index_buf: None,
            num_vertices: vertices@.len() as usize,
            num_indices: 0,
        }),
        final(ctx)@ == (ContextModel {
            buffers: old(ctx)@.buffers.push(
                filled_buffer("vertex buffer", (vertices@.len() * VERTEX_STRIDE) as u64),
            ),
            log: old(ctx)@.log.push(DeviceOp::Write { buffer: old(ctx)@.buffers.len() as int }),
            ..old(ctx)@
        }),
        mesh.ready(final(ctx)@),
{
    let count = vertices.len();
    let buffer = upload_items(ctx, "vertex buffer", count, VERTEX_STRIDE);
    Mesh { vertex_buf: buffer.whole(), index_buf: None, num_vertices: count, num_indices: 0 }
}

/// `out` holds one vertex for each position of `mesh`, in order, and the
/// vertex at place `i` carries the normal that `face_normal` gave for
/// triangle `i / 3` of the mesh.
pub open spec fn is_indexed_vertices<P, F: Fn(P, P, P) -> P>(
    mesh: CpuMesh<P>,
    face_normal: F,
    out: Seq<Vertex<P>>,
) -> bool {
    &&& out.len() == mesh.vertices@.len()
    &&& forall|i: int| 0 <= i < out.len() ==> (#[trigger] out[i]).pos == mesh.vertices@[i]
    &&& exists|normals: Seq<P>|
        {
            &&& normals.len() == mesh.triangle_count()
            &&& forall|t: int|
                0 <= t < normals.len() ==> call_ensures(
                    face_normal,
                    (mesh.corner(t, 0), mesh.corner(t, 1), mesh.corner(t, 2)),
                    #[trigger] normals[t],
                )
            &&& forall|t: int, c: int|
                0 <= t && 0 <= c < 3 && 3 * t + c < out.len() ==> t < normals.len() && (
                #[trigger] flat_vertex(out, t, c)).normal == normals[t]
        }
}

/// The indices as the device reads them.
pub open spec fn device_indices(indices: Seq<usize>) -> Seq<u32> {
    Seq::new(indices.len(), |k: int| indices[k] as u32)
}

/// Enters a vertex buffer and an index buffer for `mesh`: one vertex for
/// each position, and the mesh's indices in words of four bytes. Returns the
/// mesh on the device with the vertices and the indices that its buffers are
/// to be filled with.
pub fn upload_mesh<P: Copy, F: Fn(P, P, P) -> P>(
    ctx: &mut Context,
    mesh: CpuMesh<P>,
    face_normal: F,
) -> (uploaded: (Mesh, Vec<Vertex<P>>, Vec<u32>))
    requires
        old(ctx).wf(),
        mesh.indices_in_range(),
        mesh.indices@.len() % 3 == 0,
        mesh.vertices@.len() <= 3 * mesh.triangle_count(),
        mesh.indices@.len() <= u32::MAX,
        forall|a: P, b: P, c: P| call_requires(face_normal, (a, b, c)),
    ensures
        final(ctx).wf(),
        uploaded.0 == (Mesh {
            vertex_buf: BufferPiece {
                buffer: Buffer { id: old(ctx)@.buffers.len() as usize },
                offset: 0,
            },
            index_buf: Some(
                BufferPiece {
                    buffer: Buffer { id: (old(ctx)@.buffers.len() + 1) as usize },
                    offset: 0,
                },
            ),
            num_vertices: mesh.vertices@.len() as usize,
            num_indices: mesh.indices@.len() as usize,
        }),
        is_indexed_vertices(mesh, face_normal, uploaded.1@),
        uploaded.2@ == device_indices(mesh.indices@),
        final(ctx)@ == (ContextModel {
            buffers: old(ctx)@.buffers.push(
                filled_buffer("vertex buffer", (mesh.vertices@.len() * VERTEX_STRIDE) as u64),
            ).push(filled_buffer("index buffer", (mesh.indices@.len() * INDEX_STRIDE) as u64)),
            log: old(ctx)@.log.push(
                DeviceOp::Write { buffer: old(ctx)@.buffers.len() as int },
            ).push(DeviceOp::Write { buffer: old(ctx)@.buffers.len() as int + 1 }),
            ..old(ctx)@
        }),
        uploaded.0.ready(final(ctx)@),
{
    let triangles: usize = mesh.indices.len() / 3;
    let mut normals: Vec<P> = Vec::new();
    let mut t: usize = 0;
    let mut base: usize = 0;
    while t < triangles
        invariant
            t <= triangles,
            triangles == mesh.triangle_count(),
            3 * triangles == mesh.indices.len(),
            base == 3 * t,
            mesh.indices_in_range(),
            forall|a: P, b: P, c: P| call_requires(face_normal, (a, b, c)),
            normals@.len() == t,
            forall|s: int|
                0 <= s < t ==> call_ensures(
                    face_normal,
                    (mesh.corner(s, 0), mesh.corner(s, 1), mesh.corner(s, 2)),
                    #[trigger] normals@[s],
                ),
        decreases triangles - t,
    {
        let v0 = mesh.vertices[mesh.indices[base]];
        let v1 = mesh.vertices[mesh.indices[base + 1]];
        let v2 = mesh.vertices[mesh.indices[base + 2]];
        let n = face_normal(v0, v1, v2);
        normals.push(n);
        t = t + 1;
        base = base + 3;
    }
    let mut vertices: Vec<Vertex<P>> = Vec::new();
    let mut i: usize = 0;
    let mut t: usize = 0;
    let mut c: usize = 0;
    while i < mesh.vertices.len()
        invariant
            i <= mesh.vertices@.len(),
            mesh.vertices@.len() <= 3 * triangles,
            normals@.len() == triangles,
            i == 3 * t + c,
            c < 3,
            vertices@.len() == i,
            forall|k: int| 0 <= k < i ==> (#[trigger] vertices@[k]).pos == mesh.vertices@[k],
            forall|s: int, d: int|
                0 <= s && 0 <= d < 3 && 3 * s + d < i ==> s < normals@.len() && (
                #[trigger] flat_vertex(vertices@, s, d)).normal == normals@[s],
        decreases mesh.vertices@.len() - i,
    {
        let ghost before = vertices@;
        vertices.push(Vertex { pos: mesh.vertices[i], normal: normals[t] });
        proof {
            assert forall|s: int, d: int| 0 <= s && 0 <= d < 3 && 3 * s + d < i + 1 implies s
                < normals@.len() && (#[trigger] flat_vertex(vertices@, s, d)).normal
                == normals@[s] by {
                if 3 * s + d < i {
                    assert(flat_vertex(vertices@, s, d) == flat_vertex(before, s, d));
                } else {
                    assert(s == t && d == c);
                }
            }
        }
        i = i + 1;
        if c == 2 {
            c = 0;
            t = t + 1;
        } else {
            c = c + 1;
        }
    }
    let mut indices: Vec<u32> = Vec::new();
    let mut k: usize = 0;
    while k < mesh.indices.len()
        invariant
            k <= mesh.indices@.len(),
            mesh.indices_in_range(),
            mesh.vertices@.len() <= u32::MAX,
            indices@.len() == k,
            forall|j: int| 0 <= j < k ==> indices@[j] == mesh.indices@[j] as u32,
        decreases mesh.indices@.len() - k,
    {
        let index = mesh.indices[k];
        indices.push(index as u32);
        k = k + 1;
    }
    proof {
        assert(indices@ =~= device_indices(mesh.indices@));
    }
    let vertex_buf = upload_items(ctx, "vertex buffer", mesh.vertices.len(), VERTEX_STRIDE);
    let index_buf = upload_items(ctx, "index buffer", mesh.indices.len(), INDEX_STRIDE);
    let uploaded = Mesh {
        vertex_buf: vertex_buf.whole(),
        index_buf: Some(index_buf.whole()),
        num_vertices: mesh.vertices.len(),
        num_indices: mesh.indices.len(),
    };
    (uploaded, vertices, indices)
}

} // verus!

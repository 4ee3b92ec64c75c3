//! CPU-side meshes and their expansion into a flat triangle list.
//!
//! The position type `P` is left to the caller: the library moves positions
//! around and decides which ones form a triangle, and asks the caller for the
//! normal of each triangle.

use vstd::prelude::*;

verus! {

/// A mesh as it is read from a file: positions, and the corners of its
/// triangles as positions' indices, three in a row for each triangle.
#[derive(Clone, Debug, PartialEq)]
pub struct CpuMesh<P> {
    pub vertices: Vec<P>,
    pub indices: Vec<usize>,
}

/// One corner of a triangle, ready for upload: its position and the normal
/// of the triangle it belongs to.
#[derive(Clone, Copy, Debug, PartialEq)]
pub struct Vertex<P> {
    pub pos: P,
    pub normal: P,
}

/// Every index of `indices` names one of `count` positions.
pub open spec fn all_below(indices: Seq<usize>, count: nat) -> bool {
    forall|k: int| 0 <= k < indices.len() ==> indices[k] < count
}

impl<P> CpuMesh<P> {
    /// Every corner names a position of the mesh.
    pub open spec fn indices_in_range(&self) -> bool {
        all_below(self.indices@, self.vertices@.len())
    }

    /// The number of whole triangles; up to two indices left over at the end
    /// form none.
    pub open spec fn triangle_count(&self) -> int {
        self.indices@.len() as int / 3
    }

    /// The position at corner `corner` (0, 1 or 2) of triangle `t`.
    pub open spec fn corner(&self, t: int, corner: int) -> P {
        self.vertices@[self.indices@[3 * t + corner] as int]
    }

    /// Tells whether every corner names a position of the mesh.
    pub fn check_indices(&self) -> (ok: bool)
        ensures
            ok == self.indices_in_range(),
    {
        let count = self.vertices.len();
        let mut k: usize = 0;
        while k < self.indices.len()
            invariant
                k <= self.indices@.len(),
                count == self.vertices@.len(),
                forall|i: int| 0 <= i < k ==> self.indices@[i] < count,
            decreases self.indices@.len() - k,
        {
            if self.indices[k] >= count {
                return false;
            }
            k = k + 1;
        }
        true
    }
}

/// The vertex that `out` holds for corner `corner` (0, 1 or 2) of triangle `t`.
pub open spec fn flat_vertex<P>(out: Seq<Vertex<P>>, t: int, corner: int) -> Vertex<P> {
    out[3 * t + corner]
}

/// `out` is a flat triangle list of `mesh` under `face_normal`: three
/// vertices for each whole triangle, in the order of the mesh's indices; each
/// carries the position its index names, and the three of one triangle share
/// one normal, which `face_normal` gave for the triangle's corners in order.
pub open spec fn is_flattening<P, F: Fn(P, P, P) -> P>(
    mesh: CpuMesh<P>,
    face_normal: F,
    out: Seq<Vertex<P>>,
) -> bool {
    &&& out.len() == 3 * mesh.triangle_count()
    &&& forall|t: int, c: int|
        0 <= t < mesh.triangle_count() && 0 <= c < 3 ==> {
            &&& (#[trigger] flat_vertex(out, t, c)).pos == mesh.corner(t, c)
            &&& flat_vertex(out, t, c).normal == flat_vertex(out, t, 0).normal
        }
    &&& forall|t: int|
        0 <= t < mesh.triangle_count() ==> call_ensures(
            face_normal,
            (mesh.corner(t, 0), mesh.corner(t, 1), mesh.corner(t, 2)),
            (#[trigger] flat_vertex(out, t, 0)).normal,
        )
}

/// `face_normal` gives one result for each triple of corners.
pub open spec fn single_valued<P, F: Fn(P, P, P) -> P>(face_normal: F) -> bool {
    forall|a: P, b: P, c: P, m: P, n: P|
        call_ensures(face_normal, (a, b, c), m) && call_ensures(face_normal, (a, b, c), n) ==> m
            == n
}

/// Expands `mesh` into a flat triangle list: for each whole triangle, in
/// order, its three corners with the normal that `face_normal` computes from
/// the three positions, handed over in corner order.
pub fn turn_mesh_into_pure_vertex_list<P: Copy, F: Fn(P, P, P) -> P>(
    mesh: CpuMesh<P>,
    face_normal: F,
) -> (vertices: Vec<Vertex<P>>)
    requires
        mesh.indices_in_range(),
        forall|a: P, b: P, c: P| call_requires(face_normal, (a, b, c)),
    ensures
        is_flattening(mesh, face_normal, vertices@),
{
    let mut vertices: Vec<Vertex<P>> = Vec::new();
    let triangles: usize = mesh.indices.len() / 3;
    let mut t: usize = 0;
    let mut base: usize = 0;
    while t < triangles
        invariant
            t <= triangles,
            triangles == mesh.triangle_count(),
            3 * triangles <= mesh.indices.len(),
            base == 3 * t,
            mesh.indices_in_range(),
            forall|a: P, b: P, c: P| call_requires(face_normal, (a, b, c)),
            vertices@.len() == base,
            forall|s: int, c: int|
                0 <= s < t && 0 <= c < 3 ==> {
                    &&& (#[trigger] flat_vertex(vertices@, s, c)).pos == mesh.corner(s, c)
                    &&& flat_vertex(vertices@, s, c).normal == flat_vertex(vertices@, s, 0).normal
                },
            forall|s: int|
                0 <= s < t ==> call_ensures(
                    face_normal,
                    (mesh.corner(s, 0), mesh.corner(s, 1), mesh.corner(s, 2)),
                    (#[trigger] flat_vertex(vertices@, s, 0)).normal,
                ),
        decreases triangles - t,
    {
        let i0 = mesh.indices[base];
        let i1 = mesh.indices[base + 1];
        let i2 = mesh.indices[base + 2];
        let v0 = mesh.vertices[i0];
        let v1 = mesh.vertices[i1];
        let v2 = mesh.vertices[i2];
        let n = face_normal(v0, v1, v2);
        let ghost before = vertices@;
        vertices.push(Vertex { pos: v0, normal: n });
        vertices.push(Vertex { pos: v1, normal: n });
        vertices.push(Vertex { pos: v2, normal: n });
        proof {
            assert forall|s: int, c: int| 0 <= s < t + 1 && 0 <= c < 3 implies {
                &&& (#[trigger] flat_vertex(vertices@, s, c)).pos == mesh.corner(s, c)
                &&& flat_vertex(vertices@, s, c).normal == flat_vertex(vertices@, s, 0).normal
            } by {
                if s < t {
                    assert(flat_vertex(vertices@, s, c) == flat_vertex(before, s, c));
                    assert(flat_vertex(vertices@, s, 0) == flat_vertex(before, s, 0));
                }
            }
            assert forall|s: int| 0 <= s < t + 1 implies call_ensures(
                face_normal,
                (mesh.corner(s, 0), mesh.corner(s, 1), mesh.corner(s, 2)),
                (#[trigger] flat_vertex(vertices@, s, 0)).normal,
            ) by {
                if s < t {
                    assert(flat_vertex(vertices@, s, 0) == flat_vertex(before, s, 0));
                }
            }
        }
        t = t + 1;
        base = base + 3;
    }
    vertices
}

/// Flattening is repeatable: where the normal function gives one result for
/// each triangle, any two flat lists of one mesh are equal, vertex for vertex.
pub proof fn lemma_flatten_repeatable<P, F: Fn(P, P, P) -> P>(
    mesh: CpuMesh<P>,
    face_normal: F,
    first: Seq<Vertex<P>>,
    second: Seq<Vertex<P>>,
)
    requires
        single_valued(face_normal),
        is_flattening(mesh, face_normal, first),
        is_flattening(mesh, face_normal, second),
    ensures
        first == second,
{
    assert forall|k: int| 0 <= k < first.len() implies first[k] == second[k] by {
        let t = k / 3;
        let c = k % 3;
        assert(k == 3 * t + c);
        assert(0 <= t < mesh.triangle_count());
        assert(first[k] == flat_vertex(first, t, c));
        assert(second[k] == flat_vertex(second, t, c));
        assert(call_ensures(
            face_normal,
            (mesh.corner(t, 0), mesh.corner(t, 1), mesh.corner(t, 2)),
            flat_vertex(first, t, 0).normal,
        ));
        assert(call_ensures(
            face_normal,
            (mesh.corner(t, 0), mesh.corner(t, 1), mesh.corner(t, 2)),
            flat_vertex(second, t, 0).normal,
        ));
    }
    assert(first =~= second);
}

} // verus!

//! Triangulated meshes held by handle, their counts, and their flat export.
//!
//! The mesh itself is truck's `PolygonMesh`, read through the few calls
//! below. Positions are seen as binary64 bit patterns; faces as triples of
//! position indices.

use vstd::prelude::*;
use truck_polymesh::{PolygonMesh, StandardAttributes, StandardVertex};
use crate::handle::{HandleError, HandleTable, NULL_HANDLE, issued, live, same_live, value_at};
use crate::resource::{
    Resource, ResourceKind, holds_kind, kind_of, released_as, release_as, release_as_result,
};

verus! {

#[verifier::external_type_specification]
#[verifier::external_body]
#[verifier::reject_recursive_types(V)]
#[verifier::reject_recursive_types(A)]
pub struct ExPolygonMesh<V, A>(PolygonMesh<V, A>);

#[verifier::external_type_specification]
#[verifier::external_body]
pub struct ExStandardVertex(StandardVertex);

#[verifier::external_type_specification]
#[verifier::external_body]
pub struct ExStandardAttributes(StandardAttributes);

/// The positions of a mesh, each coordinate as its binary64 bit pattern.
pub uninterp spec fn mesh_positions(m: PolygonMesh) -> Seq<(u64, u64, u64)>;

/// The triangles of a mesh, each as the position indices of its corners.
pub uninterp spec fn mesh_tri_faces(m: PolygonMesh) -> Seq<(usize, usize, usize)>;

/// Relies on `PolygonMesh::positions`: the mesh's position list, in order,
/// each coordinate turned into its bit pattern by `f64::to_bits`.
#[verifier::external_body]
fn position_bits(m: &PolygonMesh) -> (r: Vec<(u64, u64, u64)>)
    ensures
        r@ == mesh_positions(*m),
{
    m.positions().iter().map(|p| (p.x.to_bits(), p.y.to_bits(), p.z.to_bits())).collect()
}

/// Relies on `PolygonMesh::positions`: the length of the position list.
#[verifier::external_body]
fn position_count(m: &PolygonMesh) -> (r: usize)
    ensures
        r == mesh_positions(*m).len(),
{
    m.positions().len()
}

/// Relies on `PolygonMesh::tri_faces`: the triangle list, in order, each
/// corner reduced to its `pos` index.
#[verifier::external_body]
fn tri_face_indices(m: &PolygonMesh) -> (r: Vec<(usize, usize, usize)>)
    ensures
        r@ == mesh_tri_faces(*m),
{
    m.tri_faces().iter().map(|f| (f[0].pos, f[1].pos, f[2].pos)).collect()
}

/// Relies on `PolygonMesh::tri_faces`: the length of the triangle list.
#[verifier::external_body]
fn tri_face_count(m: &PolygonMesh) -> (r: usize)
    ensures
        r == mesh_tri_faces(*m).len(),
{
    m.tri_faces().len()
}

/// `r` lists the triples of `p` one after another: `x0, y0, z0, x1, ...`.
pub open spec fn flattens<A>(r: Seq<A>, p: Seq<(A, A, A)>) -> bool {
    &&& r.len() == 3 * p.len()
    &&& forall|i: int| 0 <= i < p.len() ==> #[trigger] p[i] == (r[3 * i], r[3 * i + 1], r[3 * i + 2])
}

/// The positions behind mesh handle `h`; none where `h` is no live mesh.
pub open spec fn positions_of(s: Seq<Option<Resource>>, h: int) -> Seq<(u64, u64, u64)> {
    if holds_kind(s, h, ResourceKind::Mesh) {
        mesh_positions(value_at(s, h)->Mesh_0)
    } else {
        Seq::empty()
    }
}

/// The triangles behind mesh handle `h`; none where `h` is no live mesh.
pub open spec fn faces_of(s: Seq<Option<Resource>>, h: int) -> Seq<(usize, usize, usize)> {
    if holds_kind(s, h, ResourceKind::Mesh) {
        mesh_tri_faces(value_at(s, h)->Mesh_0)
    } else {
        Seq::empty()
    }
}

/// The contents of position buffer `h`; none where `h` is no live one.
pub open spec fn position_buffer(s: Seq<Option<Resource>>, h: int) -> Seq<u64> {
    if holds_kind(s, h, ResourceKind::Positions) {
        (value_at(s, h)->Positions_0)@
    } else {
        Seq::empty()
    }
}

/// The contents of index buffer `h`; none where `h` is no live one.
pub open spec fn index_buffer(s: Seq<Option<Resource>>, h: int) -> Seq<i32> {
    if holds_kind(s, h, ResourceKind::Indices) {
        (value_at(s, h)->Indices_0)@
    } else {
        Seq::empty()
    }
}

/// Triangles with each index as a 32-bit signed integer.
pub open spec fn faces_as_i32(f: Seq<(usize, usize, usize)>) -> Seq<(i32, i32, i32)> {
    f.map_values(|t: (usize, usize, usize)| (t.0 as i32, t.1 as i32, t.2 as i32))
}

/// Every corner of every triangle names one of `n` positions.
pub open spec fn faces_in_range(f: Seq<(usize, usize, usize)>, n: int) -> bool {
    forall|i: int| 0 <= i < f.len() ==> {
        &&& (#[trigger] f[i]).0 < n
        &&& f[i].1 < n
        &&& f[i].2 < n
    }
}

/// A new buffer was added to `s` under handle `h`, the table otherwise as
/// it was; or, where `source` is no live mesh, nothing was added and `h` is
/// null.
pub open spec fn exported(
    s: Seq<Option<Resource>>,
    t: Seq<Option<Resource>>,
    source: int,
    h: int,
    k: ResourceKind,
) -> bool {
    if holds_kind(s, source, ResourceKind::Mesh) {
        &&& h == s.len() + 1
        &&& t.len() == s.len() + 1
        &&& t.drop_last() == s
        &&& holds_kind(t, h, k)
    } else {
        h == NULL_HANDLE && t == s
    }
}

/// Takes ownership of a mesh and gives its handle, which no value of any
/// kind has had before.
pub fn store_mesh(reg: &mut HandleTable<Resource>, mesh: PolygonMesh) -> (h: isize)
    requires
        old(reg)@.len() < isize::MAX,
    ensures
        h != NULL_HANDLE,
        h == old(reg)@.len() + 1,
        !issued(old(reg)@, h as int),
        final(reg)@ == old(reg)@.push(Some(Resource::Mesh(mesh))),
{
    reg.construct(Resource::Mesh(mesh))
}

/// Releases the mesh behind `ptr`; the null handle is a no-op, and a handle
/// of another kind is refused. Buffers exported from it stay as they are.
pub fn free_polygon_mesh(reg: &mut HandleTable<Resource>, ptr: isize) -> (r: Result<(), HandleError>)
    ensures
        final(reg)@ == released_as(old(reg)@, ptr as int, ResourceKind::Mesh),
        r == release_as_result(old(reg)@, ptr as int, ResourceKind::Mesh),
{
    release_as(reg, ptr, ResourceKind::Mesh)
}

/// Releases the position buffer behind `ptr`; the null handle is a no-op,
/// and a handle of another kind is refused.
pub fn free_vertices(reg: &mut HandleTable<Resource>, ptr: isize) -> (r: Result<(), HandleError>)
    ensures
        final(reg)@ == released_as(old(reg)@, ptr as int, ResourceKind::Positions),
        r == release_as_result(old(reg)@, ptr as int, ResourceKind::Positions),
{
    release_as(reg, ptr, ResourceKind::Positions)
}

/// Releases the index buffer behind `ptr`; the null handle is a no-op, and
/// a handle of another kind is refused.
pub fn free_faces(reg: &mut HandleTable<Resource>, ptr: isize) -> (r: Result<(), HandleError>)
    ensures
        final(reg)@ == released_as(old(reg)@, ptr as int, ResourceKind::Indices),
        r == release_as_result(old(reg)@, ptr as int, ResourceKind::Indices),
{
    release_as(reg, ptr, ResourceKind::Indices)
}

/// The number of positions of the mesh behind `mesh_ptr`, as a 32-bit
/// integer; 0 where the handle is no live mesh.
pub fn get_vertex_count(reg: &HandleTable<Resource>, mesh_ptr: isize) -> (r: i32)
    ensures
        r == positions_of(reg@, mesh_ptr as int).len() as i32,
{
    match reg.get(mesh_ptr) {
        Some(Resource::Mesh(m)) => position_count(m) as i32,
        _ => 0,
    }
}

/// The number of triangles of the mesh behind `mesh_ptr`, as a 32-bit
/// integer; 0 where the handle is no live mesh.
pub fn get_face_count(reg: &HandleTable<Resource>, mesh_ptr: isize) -> (r: i32)
    ensures
        r == faces_of(reg@, mesh_ptr as int).len() as i32,
{
    match reg.get(mesh_ptr) {
        Some(Resource::Mesh(m)) => tri_face_count(m) as i32,
        _ => 0,
    }
}

/// The positions of `m` laid out flat: `x0, y0, z0, x1, ...`.
fn flat_positions(m: &PolygonMesh) -> (r: Vec<u64>)
    ensures
        flattens(r@, mesh_positions(*m)),
{
    let src = position_bits(m);
    let mut out: Vec<u64> = Vec::new();
    let mut i: usize = 0;
    while i < src.len()
        invariant
            i <= src@.len(),
            src@ == mesh_positions(*m),
            flattens(out@, src@.take(i as int)),
        decreases src.len() - i,
    {
        let t = src[i];
        out.push(t.0);
        out.push(t.1);
        out.push(t.2);
        proof {
            assert forall|j: int| 0 <= j < i + 1 implies #[trigger] src@.take(i + 1)[j] == (
            out@[3 * j], out@[3 * j + 1], out@[3 * j + 2]) by {
                if j < i {
                    assert(src@.take(i as int)[j] == src@.take(i + 1)[j]);
                }
            }
        }
        i += 1;
    }
    assert(src@.take(src@.len() as int) =~= src@);
    out
}

/// The triangles of `m` laid out flat, three 32-bit indices each.
fn flat_faces(m: &PolygonMesh) -> (r: Vec<i32>)
    ensures
        flattens(r@, faces_as_i32(mesh_tri_faces(*m))),
{
    let src = tri_face_indices(m);
    let ghost want = faces_as_i32(src@);
    let mut out: Vec<i32> = Vec::new();
    let mut i: usize = 0;
    while i < src.len()
        invariant
            i <= src@.len(),
            src@ == mesh_tri_faces(*m),
            want == faces_as_i32(src@),
            flattens(out@, want.take(i as int)),
        decreases src.len() - i,
    {
        let t = src[i];
        out.push(t.0 as i32);
        out.push(t.1 as i32);
        out.push(t.2 as i32);
        proof {
            assert forall|j: int| 0 <= j < i + 1 implies #[trigger] want.take(i + 1)[j] == (
            out@[3 * j], out@[3 * j + 1], out@[3 * j + 2]) by {
                if j < i {
                    assert(want.take(i as int)[j] == want.take(i + 1)[j]);
                }
            }
        }
        i += 1;
    }
    assert(want.take(want.len() as int) =~= want);
    out
}

/// Exports the positions of the mesh behind `mesh_ptr` as a new position
/// buffer, `x0, y0, z0, x1, ...` as binary64 bit patterns, and gives the
/// buffer's handle; the null handle, adding nothing, where `mesh_ptr` is no
/// live mesh. The buffer is a copy: it lives on after the mesh is released.
pub fn get_vertices(reg: &mut HandleTable<Resource>, mesh_ptr: isize) -> (h: isize)
    requires
        old(reg)@.len() < isize::MAX,
    ensures
        exported(old(reg)@, final(reg)@, mesh_ptr as int, h as int, ResourceKind::Positions),
        flattens(position_buffer(final(reg)@, h as int), positions_of(old(reg)@, mesh_ptr as int)),
{
    let flat = match reg.get(mesh_ptr) {
        Some(Resource::Mesh(m)) => Some(flat_positions(m)),
        _ => None,
    };
    match flat {
        Some(v) => {
            let h = reg.construct(Resource::Positions(v));
            assert(final(reg)@.drop_last() =~= old(reg)@);
            h
        },
        None => NULL_HANDLE,
    }
}

/// Exports the triangles of the mesh behind `mesh_ptr` as a new index
/// buffer, the three position indices of each triangle in the mesh's own
/// winding order as 32-bit signed integers, and gives the buffer's handle;
/// the null handle, adding nothing, where `mesh_ptr` is no live mesh. The
/// buffer is a copy: it lives on after the mesh is released.
pub fn get_faces(reg: &mut HandleTable<Resource>, mesh_ptr: isize) -> (h: isize)
    requires
        old(reg)@.len() < isize::MAX,
    ensures
        exported(old(reg)@, final(reg)@, mesh_ptr as int, h as int, ResourceKind::Indices),
        flattens(index_buffer(final(reg)@, h as int), faces_as_i32(faces_of(old(reg)@, mesh_ptr as int))),
{
    let flat = match reg.get(mesh_ptr) {
        Some(Resource::Mesh(m)) => Some(flat_faces(m)),
        _ => None,
    };
    match flat {
        Some(v) => {
            let h = reg.construct(Resource::Indices(v));
            assert(final(reg)@.drop_last() =~= old(reg)@);
            h
        },
        None => NULL_HANDLE,
    }
}

/// The contents of the position buffer behind `ptr`; `None` where it is no
/// live position buffer.
pub fn vertex_buffer(reg: &HandleTable<Resource>, ptr: isize) -> (r: Option<&Vec<u64>>)
    ensures
        r is Some <==> holds_kind(reg@, ptr as int, ResourceKind::Positions),
        r is Some ==> r->Some_0@ == position_buffer(reg@, ptr as int),
{
    match reg.get(ptr) {
        Some(Resource::Positions(v)) => Some(v),
        _ => None,
    }
}

/// The contents of the index buffer behind `ptr`; `None` where it is no
/// live index buffer.
pub fn face_buffer(reg: &HandleTable<Resource>, ptr: isize) -> (r: Option<&Vec<i32>>)
    ensures
        r is Some <==> holds_kind(reg@, ptr as int, ResourceKind::Indices),
        r is Some ==> r->Some_0@ == index_buffer(reg@, ptr as int),
{
    match reg.get(ptr) {
        Some(Resource::Indices(v)) => Some(v),
        _ => None,
    }
}

/// Exported buffers hold three entries per position and three per triangle,
/// so their lengths are three times the counts; and where every triangle
/// names positions of its own mesh, every exported index lies in
/// `[0, vertex count)`. Counts are taken as 32-bit integers, so they must fit.
pub proof fn lemma_export_sizes(s: Seq<Option<Resource>>, h: int, pos: Seq<u64>, idx: Seq<i32>)
    requires
        flattens(pos, positions_of(s, h)),
        flattens(idx, faces_as_i32(faces_of(s, h))),
        positions_of(s, h).len() <= i32::MAX,
        faces_of(s, h).len() <= i32::MAX,
    ensures
        pos.len() == 3 * (positions_of(s, h).len() as i32),
        idx.len() == 3 * (faces_of(s, h).len() as i32),
        faces_in_range(faces_of(s, h), positions_of(s, h).len() as int) ==> forall|k: int|
            0 <= k < idx.len() ==> 0 <= #[trigger] idx[k] < positions_of(s, h).len() as i32,
{
    let n = positions_of(s, h).len();
    let f = faces_of(s, h);
    let g = faces_as_i32(f);
    if faces_in_range(f, n as int) {
        assert forall|k: int| 0 <= k < idx.len() implies 0 <= #[trigger] idx[k] < n as i32 by {
            let i = k / 3;
            assert(0 <= i < f.len());
            assert(k == 3 * i || k == 3 * i + 1 || k == 3 * i + 2);
            assert(g[i] == (idx[3 * i], idx[3 * i + 1], idx[3 * i + 2]));
            let t = f[i];
            assert(t.0 < n && t.1 < n && t.2 < n);
            assert(g[i] == (t.0 as i32, t.1 as i32, t.2 as i32));
        }
    }
}

/// A mesh is stored, both its buffers are exported, and then the three are
/// released in any order `a`, `b`, `c`: every release succeeds, each value
/// is released exactly once, and afterwards the same handles are live, with
/// the same values, as before the mesh was stored.
pub proof fn lemma_export_release_any_order(
    s0: Seq<Option<Resource>>,
    m: PolygonMesh,
    pv: Vec<u64>,
    fi: Vec<i32>,
    a: int,
    b: int,
    c: int,
)
    requires
        s0.len() + 1 <= a <= s0.len() + 3,
        s0.len() + 1 <= b <= s0.len() + 3,
        s0.len() + 1 <= c <= s0.len() + 3,
        a != b,
        b != c,
        a != c,
    ensures
        ({
            let s3 = s0.push(Some(Resource::Mesh(m))).push(Some(Resource::Positions(pv))).push(
                Some(Resource::Indices(fi)),
            );
            let ka = kind_of(value_at(s3, a));
            let kb = kind_of(value_at(s3, b));
            let kc = kind_of(value_at(s3, c));
            let s4 = released_as(s3, a, ka);
            let s5 = released_as(s4, b, kb);
            let s6 = released_as(s5, c, kc);
            &&& release_as_result(s3, a, ka) == Ok::<(), HandleError>(())
            &&& release_as_result(s4, b, kb) == Ok::<(), HandleError>(())
            &&& release_as_result(s5, c, kc) == Ok::<(), HandleError>(())
            &&& release_as_result(s6, a, ka) == Err::<(), HandleError>(HandleError::Released)
            &&& release_as_result(s6, b, kb) == Err::<(), HandleError>(HandleError::Released)
            &&& release_as_result(s6, c, kc) == Err::<(), HandleError>(HandleError::Released)
            &&& same_live(s6, s0)
        }),
{
    let n = s0.len() as int;
    let s3 = s0.push(Some(Resource::Mesh(m))).push(Some(Resource::Positions(pv))).push(
        Some(Resource::Indices(fi)),
    );
    let ka = kind_of(value_at(s3, a));
    let kb = kind_of(value_at(s3, b));
    let kc = kind_of(value_at(s3, c));
    let s4 = released_as(s3, a, ka);
    let s5 = released_as(s4, b, kb);
    let s6 = released_as(s5, c, kc);
    assert(live(s3, a) && live(s3, b) && live(s3, c));
    assert(s4 == s3.update(a - 1, None));
    assert(live(s4, b) && value_at(s4, b) == value_at(s3, b));
    assert(s5 == s4.update(b - 1, None));
    assert(live(s5, c) && value_at(s5, c) == value_at(s4, c));
    assert(s6 == s5.update(c - 1, None));
    assert forall|g: int| #![trigger live(s6, g)] #![trigger live(s0, g)]
        live(s6, g) == live(s0, g) && (live(s6, g) ==> value_at(s6, g) == value_at(s0, g)) by {
        if 1 <= g <= n {
            assert(s6[g - 1] == s0[g - 1]);
        } else if n < g <= n + 3 {
            assert(g == a || g == b || g == c);
            assert(s6[g - 1] is None);
        }
    }
}

} // verus!

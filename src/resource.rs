//! The values a foreign caller can hold a handle to, all kept in one table
//! so that every handle is unique across kinds.

use vstd::prelude::*;
use truck_polymesh::PolygonMesh;
use crate::handle::{HandleError, HandleTable, live, value_at, released, release_result};
use crate::point::Point3;

verus! {

/// A value owned through a handle.
pub enum Resource {
    /// A cell holding one point.
    Point(Point3),
    /// A triangulated mesh.
    Mesh(PolygonMesh),
    /// Exported positions, `x0, y0, z0, x1, ...` as binary64 bit patterns.
    Positions(Vec<u64>),
    /// Exported triangles, three position indices each.
    Indices(Vec<i32>),
}

/// Which of the four kinds a resource is.
#[derive(Clone, Copy, Debug, PartialEq, Eq, Structural)]
pub enum ResourceKind {
    Point,
    Mesh,
    Positions,
    Indices,
}

pub open spec fn kind_of(r: Resource) -> ResourceKind {
    match r {
        Resource::Point(_) => ResourceKind::Point,
        Resource::Mesh(_) => ResourceKind::Mesh,
        Resource::Positions(_) => ResourceKind::Positions,
        Resource::Indices(_) => ResourceKind::Indices,
    }
}

impl Resource {
    pub fn kind(&self) -> (k: ResourceKind)
        ensures
            k == kind_of(*self),
    {
        match self {
            Resource::Point(_) => ResourceKind::Point,
            Resource::Mesh(_) => ResourceKind::Mesh,
            Resource::Positions(_) => ResourceKind::Positions,
            Resource::Indices(_) => ResourceKind::Indices,
        }
    }
}

/// Handle `h` is live and names a resource of kind `k`.
pub open spec fn holds_kind(s: Seq<Option<Resource>>, h: int, k: ResourceKind) -> bool {
    live(s, h) && kind_of(value_at(s, h)) == k
}

/// Handle `h` is live and names a resource of another kind than `k`.
pub open spec fn kind_mismatch(s: Seq<Option<Resource>>, h: int, k: ResourceKind) -> bool {
    live(s, h) && kind_of(value_at(s, h)) != k
}

/// The slots after a release of `h` as a resource of kind `k`: a live
/// handle of another kind is left alone.
pub open spec fn released_as(s: Seq<Option<Resource>>, h: int, k: ResourceKind) -> Seq<Option<Resource>> {
    if kind_mismatch(s, h, k) {
        s
    } else {
        released(s, h)
    }
}

/// What a release of `h` as a resource of kind `k` reports.
pub open spec fn release_as_result(s: Seq<Option<Resource>>, h: int, k: ResourceKind) -> Result<(), HandleError> {
    if kind_mismatch(s, h, k) {
        Err(HandleError::WrongKind)
    } else {
        release_result(s, h)
    }
}

/// Releases `h`, which must name a resource of kind `k`. The null handle is
/// a no-op; a live handle of another kind, a released handle and a handle
/// never issued are reported and change nothing.
pub fn release_as(reg: &mut HandleTable<Resource>, h: isize, k: ResourceKind) -> (r: Result<(), HandleError>)
    ensures
        final(reg)@ == released_as(old(reg)@, h as int, k),
        r == release_as_result(old(reg)@, h as int, k),
{
    let mismatch = match reg.get(h) {
        Some(v) => v.kind() != k,
        None => false,
    };
    if mismatch {
        return Err(HandleError::WrongKind);
    }
    reg.destroy(h)
}

/// A handle of one kind never releases a resource of another kind.
pub proof fn lemma_release_keeps_other_kinds(s: Seq<Option<Resource>>, h: int, k: ResourceKind)
    requires
        kind_mismatch(s, h, k),
    ensures
        released_as(s, h, k) == s,
        release_as_result(s, h, k) == Err::<(), HandleError>(HandleError::WrongKind),
{
}

/// Releasing two distinct handles gives the same table in either order,
/// each release reporting the same outcome.
pub proof fn lemma_release_commutes(s: Seq<Option<Resource>>, a: int, ka: ResourceKind, b: int, kb: ResourceKind)
    requires
        a != b,
    ensures
        released_as(released_as(s, a, ka), b, kb) == released_as(released_as(s, b, kb), a, ka),
        release_as_result(released_as(s, a, ka), b, kb) == release_as_result(s, b, kb),
{
    let sa = released_as(s, a, ka);
    let sb = released_as(s, b, kb);
    assert(live(sa, b) == live(s, b));
    assert(live(sa, b) ==> value_at(sa, b) == value_at(s, b));
    assert(live(sb, a) == live(s, a));
    assert(live(sb, a) ==> value_at(sb, a) == value_at(s, a));
    assert(released_as(sa, b, kb) =~= released_as(sb, a, ka));
}

} // verus!

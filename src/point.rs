//! Cells that each own one 3-D point.
//!
//! Coordinates are carried as the bit patterns of binary64 numbers, so a
//! value read back is bit for bit the value stored.

use vstd::prelude::*;
use crate::handle::{HandleError, HandleTable, NULL_HANDLE, issued, live, value_at};
use crate::resource::{
    Resource, ResourceKind, holds_kind, released_as, release_as, release_as_result,
};

verus! {

/// A point whose coordinates are binary64 bit patterns.
#[derive(Clone, Copy, Debug, PartialEq, Eq, Structural)]
pub struct Point3 {
    pub x: u64,
    pub y: u64,
    pub z: u64,
}

impl Point3 {
    pub fn new(x: u64, y: u64, z: u64) -> (p: Self)
        ensures
            p == (Point3 { x, y, z }),
    {
        Point3 { x, y, z }
    }
}

/// What a query of coordinate `k` (0, 1, 2 for x, y, z) gives on slots `s`:
/// the coordinate of a live cell, and the bit pattern of `+0.0` otherwise.
pub open spec fn coordinate(s: Seq<Option<Resource>>, h: int, k: int) -> u64 {
    if holds_kind(s, h, ResourceKind::Point) {
        let p = value_at(s, h)->Point_0;
        if k == 0 {
            p.x
        } else if k == 1 {
            p.y
        } else {
            p.z
        }
    } else {
        0
    }
}

/// Stores the point `(x, y, z)` in a new cell and gives its handle, which
/// no value of any kind has had before.
pub fn construct_point3(reg: &mut HandleTable<Resource>, x: u64, y: u64, z: u64) -> (h: isize)
    requires
        old(reg)@.len() < isize::MAX,
    ensures
        h != NULL_HANDLE,
        h == old(reg)@.len() + 1,
        !issued(old(reg)@, h as int),
        forall|g: int| live(old(reg)@, g) ==> g != h,
        final(reg)@ == old(reg)@.push(Some(Resource::Point(Point3 { x, y, z }))),
{
    let p = Point3::new(x, y, z);
    reg.construct(Resource::Point(p))
}

/// Releases the cell behind `pptr`; the null handle is a no-op, and a handle
/// of another kind is refused.
pub fn point3_free(reg: &mut HandleTable<Resource>, pptr: isize) -> (r: Result<(), HandleError>)
    ensures
        final(reg)@ == released_as(old(reg)@, pptr as int, ResourceKind::Point),
        r == release_as_result(old(reg)@, pptr as int, ResourceKind::Point),
{
    release_as(reg, pptr, ResourceKind::Point)
}

/// The x coordinate behind `pptr`; `+0.0` where `pptr` is null or no live cell.
pub fn point3_get_x(reg: &HandleTable<Resource>, pptr: isize) -> (r: u64)
    ensures
        r == coordinate(reg@, pptr as int, 0),
        pptr == NULL_HANDLE ==> r == 0,
{
    match reg.get(pptr) {
        Some(Resource::Point(p)) => p.x,
        _ => 0,
    }
}

/// The y coordinate behind `pptr`; `+0.0` where `pptr` is null or no live cell.
pub fn point3_get_y(reg: &HandleTable<Resource>, pptr: isize) -> (r: u64)
    ensures
        r == coordinate(reg@, pptr as int, 1),
        pptr == NULL_HANDLE ==> r == 0,
{
    match reg.get(pptr) {
        Some(Resource::Point(p)) => p.y,
        _ => 0,
    }
}

/// The z coordinate behind `pptr`; `+0.0` where `pptr` is null or no live cell.
pub fn point3_get_z(reg: &HandleTable<Resource>, pptr: isize) -> (r: u64)
    ensures
        r == coordinate(reg@, pptr as int, 2),
        pptr == NULL_HANDLE ==> r == 0,
{
    match reg.get(pptr) {
        Some(Resource::Point(p)) => p.z,
        _ => 0,
    }
}

/// Round trip: right after a cell is made for `(x, y, z)`, its three
/// coordinates read back exactly `x`, `y` and `z`.
pub proof fn lemma_point_round_trip(s: Seq<Option<Resource>>, x: u64, y: u64, z: u64)
    ensures
        ({
            let t = s.push(Some(Resource::Point(Point3 { x, y, z })));
            let h = s.len() as int + 1;
            coordinate(t, h, 0) == x && coordinate(t, h, 1) == y && coordinate(t, h, 2) == z
        }),
{
}

/// A cell keeps its coordinates while other values are made or released.
pub proof fn lemma_point_unaffected(
    s: Seq<Option<Resource>>,
    h: int,
    g: int,
    kg: ResourceKind,
    k: int,
    r: Resource,
)
    requires
        g != h,
        live(s, h),
    ensures
        coordinate(released_as(s, g, kg), h, k) == coordinate(s, h, k),
        coordinate(s.push(Some(r)), h, k) == coordinate(s, h, k),
{
}

} // verus!

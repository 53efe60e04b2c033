//! Handles, cells and flat buffers for a tessellated-mesh pipeline that a
//! foreign caller drives through integer handles.

pub mod handle;
pub mod resource;
pub mod point;
pub mod mesh;

use vstd::prelude::*;

verus! {

/// The sum of two 32-bit integers, which must fit in 32 bits.
pub fn my_add(x: i32, y: i32) -> (r: i32)
    requires
        i32::MIN <= x + y <= i32::MAX,
    ensures
        r == x + y,
{
    x + y
}

} // verus!

//! Dispatch-grid sizing: how many workgroups a dispatch must schedule so that
//! the programs cover the whole particle array (one-dimensional policy) or a
//! fixed raster of the display (two-dimensional policy).

use vstd::prelude::*;

verus! {

/// The three-dimensional workgroup grid handed to a dispatch call.
#[derive(Clone, Copy, PartialEq, Eq, Structural, Debug)]
pub struct GridSize {
    pub x: u32,
    pub y: u32,
    pub z: u32,
}

/// Mathematical ceiling division for positive divisors.
pub open spec fn div_ceil(n: int, d: int) -> int
    recommends
        d >= 1,
{
    if n % d == 0 {
        n / d
    } else {
        n / d + 1
    }
}

/// Workgroup count under the one-dimensional policy: the smallest number of
/// workgroups of `workgroup_size` invocations that covers `particle_count`
/// particles.
pub fn workgroup_count_1d(particle_count: u32, workgroup_size: u32) -> (r: u32)
    requires
        workgroup_size >= 1,
    ensures
        r == div_ceil(particle_count as int, workgroup_size as int),
        r * workgroup_size >= particle_count,
        r >= 1 ==> (r - 1) * workgroup_size < particle_count,
{
    let q = particle_count / workgroup_size;
    let m = particle_count % workgroup_size;
    proof {
        assert(q * workgroup_size + m == particle_count) by (nonlinear_arith)
            requires
                workgroup_size >= 1,
                q == particle_count as int / workgroup_size as int,
                m == particle_count as int % workgroup_size as int,
        ;
        assert((q + 1) * workgroup_size == q * workgroup_size + workgroup_size) by (nonlinear_arith);
        assert(q >= 1 ==> (q - 1) * workgroup_size == q * workgroup_size - workgroup_size)
            by (nonlinear_arith);
        assert(q <= q * workgroup_size) by (nonlinear_arith)
            requires
                q >= 0,
                workgroup_size >= 1,
        ;
    }
    if m == 0 {
        q
    } else {
        q + 1
    }
}

/// Dispatch grid under the one-dimensional policy: `particle_count` covered
/// along x, a single workgroup along y and z.
pub fn grid_1d(particle_count: u32, workgroup_size: u32) -> (r: GridSize)
    requires
        workgroup_size >= 1,
    ensures
        r.x == div_ceil(particle_count as int, workgroup_size as int),
        r.y == 1,
        r.z == 1,
{
    GridSize { x: workgroup_count_1d(particle_count, workgroup_size), y: 1, z: 1 }
}

/// Dispatch grid under the two-dimensional policy: one workgroup for each
/// `workgroup_size` by `workgroup_size` tile of a fixed display raster, the
/// divisions rounding down.
pub fn grid_2d(display_width: u32, display_height: u32, workgroup_size: u32) -> (r: GridSize)
    requires
        workgroup_size >= 1,
    ensures
        r.x == display_width as int / workgroup_size as int,
        r.y == display_height as int / workgroup_size as int,
        r.z == 1,
{
    GridSize { x: display_width / workgroup_size, y: display_height / workgroup_size, z: 1 }
}

} // verus!

//! Ray and intercept arithmetic: a directed line ("trace") used for hit-scans
//! and sight checks, its side classifier, and the parametric line-intersection
//! solver.

use vstd::prelude::*;
use crate::arith::wrap32;
use crate::fixed::{fixed_t, spec_fixed_div, spec_fixed_mul};
use crate::vec_f2::VecF2;
use vstd::arithmetic::power2::lemma2_to64;

verus! {

/// A directed line: an origin and a direction delta, representing a ray or a
/// segment's infinite extension. Built fresh per query and never persisted.
#[derive(Clone, Copy, Debug)]
pub struct Trace {
    /// The origin of the ray.
    pub xy: VecF2,
    /// The direction delta of the ray.
    pub dxy: VecF2,
}

impl Trace {
    /// Builds a trace from origin and direction.
    pub fn new(xyz: VecF2, dxyz: VecF2) -> (r: Self)
        ensures
            r.xy == xyz,
            r.dxy == dxyz,
    {
        Self { xy: xyz, dxy: dxyz }
    }
}

/// Which side of the trace through `(tox, toy)` with direction `(tdx, tdy)`
/// the point `(px, py)` falls on: front (0) when the cross product of the
/// point offset with the direction is not positive, else back (1). A point
/// exactly on the trace counts as front.
pub open spec fn spec_trace_side(
    tox: int,
    toy: int,
    tdx: int,
    tdy: int,
    px: int,
    py: int,
) -> int {
    let dx = wrap32(px - tox);
    let dy = wrap32(py - toy);
    if spec_fixed_mul(dy, tdx) <= spec_fixed_mul(tdy, dx) {
        0
    } else {
        1
    }
}

/// Determines which side of the trace the point is on by a single
/// cross-product comparison: 0 for front, 1 for back.
pub fn point_on_side(trace: Trace, v2: VecF2) -> (r: usize)
    ensures
        r == spec_trace_side(
            trace.xy.x.0 as int,
            trace.xy.y.0 as int,
            trace.dxy.x.0 as int,
            trace.dxy.y.0 as int,
            v2.x.0 as int,
            v2.y.0 as int,
        ),
{
    let dx = v2.x.sub(trace.xy.x);
    let dy = v2.y.sub(trace.xy.y);

    if dy.mul(trace.dxy.x).0 <= trace.dxy.y.mul(dx).0 {
        // Front side
        return 0;
    }
    // Back side
    1
}

/// The solver's denominator: the cross product of the two direction vectors,
/// the first direction's components shifted down 8 bits before each
/// fixed-point multiply to stay within range. Zero means the traces are
/// parallel at this scaled precision.
pub open spec fn spec_intercept_denominator(v1d: VecF2, v2d: VecF2) -> int {
    wrap32(
        spec_fixed_mul(v1d.y.0 as int / 0x100, v2d.x.0 as int) - spec_fixed_mul(
            v1d.x.0 as int / 0x100,
            v2d.y.0 as int,
        ),
    )
}

/// The solver's numerator: the origin offset crossed with the first trace's
/// direction, each offset shifted down 8 bits before the multiply.
pub open spec fn spec_intercept_numerator(v2: Trace, v1: Trace) -> int {
    wrap32(
        spec_fixed_mul(wrap32(v1.xy.x.0 - v2.xy.x.0) / 0x100, v1.dxy.y.0 as int)
            + spec_fixed_mul(wrap32(v2.xy.y.0 - v1.xy.y.0) / 0x100, v1.dxy.x.0 as int),
    )
}

/// The parametric fraction along `v1` at which `v2` crosses it: zero when the
/// scaled direction cross product is zero (parallel traces), else the
/// saturating fixed-point quotient of numerator and denominator.
pub open spec fn spec_intercept(v2: Trace, v1: Trace) -> int {
    if spec_intercept_denominator(v1.dxy, v2.dxy) == 0 {
        0
    } else {
        spec_fixed_div(
            spec_intercept_numerator(v2, v1),
            spec_intercept_denominator(v1.dxy, v2.dxy),
        )
    }
}

/// Returns the fractional intercept point along the first divline.
///
/// The lines can be pictured as `v1` being an infinite plane, and `v2` being
/// the line to check if intersected by the plane. Parallel traces — those
/// whose scaled direction cross product is zero — yield a zero fraction
/// rather than an error, which conflates "no intersection" with
/// "intersection at the origin": a caller that needs to tell the two apart
/// must test the direction cross product itself.
pub fn intercept_vector(v2: Trace, v1: Trace) -> (r: fixed_t)
    ensures
        r.0 == spec_intercept(v2, v1),
{
    proof {
        lemma2_to64();
    }
    let denominator = v1.dxy.y.shr(8).mul(v2.dxy.x).sub(v1.dxy.x.shr(8).mul(v2.dxy.y));
    if denominator.0 == 0 {
        return fixed_t(0);
    }
    let numerator = v1.xy.x.sub(v2.xy.x).shr(8).mul(v1.dxy.y).add(
        v2.xy.y.sub(v1.xy.y).shr(8).mul(v1.dxy.x),
    );
    numerator.div(denominator)
}

/// Parallel traces always yield the zero fraction: when the scaled cross
/// product of the two directions is zero, the intercept is zero, never an
/// error. A true crossing at the first trace's origin also yields zero, so
/// only the direction cross product itself tells the two cases apart.
pub proof fn lemma_parallel_intercept_zero(v2: Trace, v1: Trace)
    requires
        spec_intercept_denominator(v1.dxy, v2.dxy) == 0,
    ensures
        spec_intercept(v2, v1) == 0,
{
}

} // verus!

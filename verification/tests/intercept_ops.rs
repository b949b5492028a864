//! Tests of the trace type: side classification and the parametric
//! line-intersection solver.

use math::fixed::fixed_t;
use math::intercept::{intercept_vector, point_on_side, Trace};
use math::vec_f2::VecF2;

fn v(x: i32, y: i32) -> VecF2 {
    VecF2::new(fixed_t::from_int(x), fixed_t::from_int(y))
}

/// The exact cross product of two direction vectors, the caller-side
/// parallelism check.
fn directions_cross(a: &Trace, b: &Trace) -> i64 {
    (a.dxy.y.0 as i64) * (b.dxy.x.0 as i64) - (a.dxy.x.0 as i64) * (b.dxy.y.0 as i64)
}

#[test]
fn trace_new_keeps_fields() {
    let t = Trace::new(v(1, 2), v(3, 4));
    assert_eq!(t.xy, v(1, 2));
    assert_eq!(t.dxy, v(3, 4));
}

#[test]
fn trace_point_on_side_classifies() {
    // A ray up and to the right from the origin.
    let t = Trace::new(v(0, 0), v(1, 1));
    assert_eq!(point_on_side(t, v(2, 1)), 0);
    assert_eq!(point_on_side(t, v(1, 2)), 1);
    // A point exactly on the trace counts as front.
    assert_eq!(point_on_side(t, v(5, 5)), 0);
}

#[test]
fn intercept_crosses_at_half() {
    // The segment (0,0)-(10,0) and the segment (5,-5)-(5,5) cross at (5,0):
    // halfway along either. The solver reports the fraction 0.5 exactly.
    let v1 = Trace::new(v(0, 0), v(10, 0));
    let v2 = Trace::new(v(5, -5), v(0, 10));
    assert_eq!(intercept_vector(v2, v1), fixed_t::new(32768));
}

#[test]
fn parallel_intercept_returns_zero() {
    // Two horizontal traces one unit apart never meet: zero fraction.
    let v1 = Trace::new(v(0, 0), v(10, 0));
    let v2 = Trace::new(v(0, 1), v(10, 0));
    assert_eq!(intercept_vector(v2, v1), fixed_t::new(0));
    // The zero is ambiguous: a genuine crossing at the start of `v2` reports
    // zero as well.
    let crossing = Trace::new(v(5, 0), v(0, 10));
    assert_eq!(intercept_vector(crossing, v1), fixed_t::new(0));
    // Only the caller-side direction cross product tells the two apart.
    assert_eq!(directions_cross(&v1, &v2), 0);
    assert_ne!(directions_cross(&v1, &crossing), 0);
}

//! Tests of the fixed-point vector: algebra, the octagonal length
//! approximation, the angle-from-vector boundary values, and point
//! classification.

use math::angle::{Angle, ANG180, ANG270, ANG45, ANG90};
use math::fixed::fixed_t;
use math::node::Node;
use math::vec_f2::{point_on_side, VecF2};

fn v(x: i32, y: i32) -> VecF2 {
    VecF2::new(fixed_t::from_int(x), fixed_t::from_int(y))
}

#[test]
fn test_ptoa_values() {
    let righthand = v(1, 0);
    let top = v(0, 1);
    let lefthand = v(-1, 0);
    let bottom = v(0, -1);
    assert_eq!(righthand.to_angle(), Angle::new(0));
    assert_eq!(top.to_angle(), Angle::new(ANG90 - 1));
    assert_eq!(lefthand.to_angle(), Angle::new(ANG180 - 1));
    assert_eq!(bottom.to_angle(), Angle::new(ANG270));
    let top_right = v(1, 1);
    let top_left = v(-1, 1);
    let bottom_left = v(-1, -1);
    let bottom_right = v(1, -1);
    assert_eq!(top_right.to_angle(), Angle::new(ANG45 - 1));
    assert_eq!(top_left.to_angle(), Angle::new(ANG45 + ANG90));
    assert_eq!(bottom_left.to_angle(), Angle::new(ANG45 + ANG180 - 1));
    assert_eq!(bottom_right.to_angle(), Angle::new(ANG45 + ANG270));
}

#[test]
fn test_point_on_side_results() {}

#[test]
fn to_angle_zero_vector_and_interior() {
    assert_eq!(v(0, 0).to_angle(), Angle::new(0));
    // A gentle slope in the first octant: angle strictly between 0 and 45
    // degrees.
    let a = v(4, 1).to_angle();
    assert!(Angle::new(0) < a && a < Angle::new(ANG45));
}

#[test]
fn vector_algebra() {
    assert_eq!(v(1, 2).add(v(3, 4)), v(4, 6));
    assert_eq!(v(1, 2).sub(v(3, 4)), v(-2, -2));
    let mut acc = v(1, 1);
    acc.add_assign(v(2, 3));
    assert_eq!(acc, v(3, 4));
    assert_eq!(v(3, -4).mul(fixed_t::from_int(2)), v(6, -8));
    let mut scaled = v(3, -4);
    scaled.mul_assign(fixed_t::from_int(-1));
    assert_eq!(scaled, v(-3, 4));
    assert_eq!(v(6, -8).div(fixed_t::from_int(2)), v(3, -4));
    assert_eq!(v(1, 2).dot(v(3, 4)), fixed_t::from_int(11));
}

#[test]
fn length_is_the_octagonal_approximation() {
    // max + min - min/2: deliberately not the Euclidean norm.
    let l = v(3, 4).length();
    assert_eq!(l, fixed_t::new(5 * 65536 + 65536 / 2)); // 5.5, not 5
    assert_eq!(v(-3, 4).length(), l);
    assert_eq!(v(4, -3).length(), l);
    assert_eq!(v(0, 7).length(), fixed_t::from_int(7));
    assert_eq!(v(1, 0).distance(v(4, 4)), l);
}

#[test]
fn point_on_side_general_cross_product() {
    let ls = v(0, 0);
    let le = v(1, 1);
    // Below the diagonal: front. Above it: back.
    assert_eq!(point_on_side(&ls, &le, &v(2, 1)), 0);
    assert_eq!(point_on_side(&ls, &le, &v(1, 2)), 1);
    // On the line: the canonical back tie-break of the cross-product branch.
    assert_eq!(point_on_side(&ls, &le, &v(3, 3)), 1);
    // Sign-mismatch shortcut: point offset left and up of an up-right line.
    assert_eq!(point_on_side(&ls, &le, &v(-1, 1)), 1);
}

#[test]
fn point_on_side_canonical_horizontal_tie() {
    // A horizontal splitting line at y = 0 with rightward direction: points
    // at y = 0 classify to the front (0), consistently on every call and on
    // both classifiers that can reach the axis-aligned branch.
    let ls = v(0, 0);
    let le = v(10, 0);
    let node = Node {
        xy: ls,
        delta: le.sub(ls),
        bboxes: [[v(0, 0); 2]; 2],
    };
    for x in [-5, 0, 3, 1000] {
        let p = v(x, 0);
        assert_eq!(point_on_side(&ls, &le, &p), 0);
        assert_eq!(point_on_side(&ls, &le, &p), 0);
        assert_eq!(node.point_on_side(&p), 0);
        assert_eq!(node.point_on_side(&p), 0);
    }
    // Above a rightward line is back; below is front.
    assert_eq!(point_on_side(&ls, &le, &v(3, 1)), 1);
    assert_eq!(point_on_side(&ls, &le, &v(3, -1)), 0);
    // A vertical line with upward direction: points at or left of it are
    // back, points right of it front.
    let top = v(0, 10);
    assert_eq!(point_on_side(&ls, &top, &v(0, 5)), 1);
    assert_eq!(point_on_side(&ls, &top, &v(-2, 5)), 1);
    assert_eq!(point_on_side(&ls, &top, &v(2, 5)), 0);
}

#[test]
fn point_in_bounds_is_strict() {
    let node = Node {
        xy: v(0, 0),
        delta: v(1, 0),
        bboxes: [
            [v(-10, 10), v(10, -10)],
            [v(0, 5), v(5, 0)],
        ],
    };
    assert!(node.point_in_bounds(v(0, 0), 0));
    assert!(!node.point_in_bounds(v(10, 0), 0)); // on the edge: excluded
    assert!(!node.point_in_bounds(v(11, 0), 0));
    assert!(node.point_in_bounds(v(2, 2), 1));
    assert!(node.point_in_bounds(v(2, 2), 0)); // also inside the wider box
    assert!(!node.point_in_bounds(v(-1, 2), 1));
}

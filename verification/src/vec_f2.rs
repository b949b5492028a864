//! The two-dimensional fixed-point vector: component-wise algebra, the fast
//! octagonal length approximation, and the angle-from-vector routine built on
//! the tan-to-angle table.

use vstd::prelude::*;
use crate::angle::Angle;
use crate::arith::{lemma_wrap32_small, lemma_wrap32u_range, wrap32, wrap32u};
use crate::fixed::{fixed_t, spec_fixed_div, spec_fixed_mul};
use crate::tables::{tan_to_angle, tan_to_angle_spec};
use vstd::arithmetic::power2::lemma2_to64;
use vstd::math::abs;

verus! {

/// An ordered pair of fixed-point scalars.
#[derive(Clone, Copy, Debug, PartialEq, Eq, Structural)]
pub struct VecF2 {
    pub x: fixed_t,
    pub y: fixed_t,
}

/// The fast octagonal length approximation over raw values `x` and `y`:
/// the sum of the magnitudes less half the smaller one, each step wrapping as
/// the 32-bit machine arithmetic does.
pub open spec fn spec_approx_length(x: int, y: int) -> int {
    let ax = abs(x) as int;
    let ay = abs(y) as int;
    if ax < ay {
        wrap32(wrap32(ax + ay) - ax / 2)
    } else {
        wrap32(wrap32(ax + ay) - ay / 2)
    }
}

impl VecF2 {
    /// Builds a vector from its components.
    pub fn new(x: fixed_t, y: fixed_t) -> (r: Self)
        ensures
            r.x == x,
            r.y == y,
    {
        VecF2 { x, y }
    }

    /// The fast approximate length: `max(|x|, |y|) + min(|x|, |y|) / 2`,
    /// computed as the legacy formula `|x| + |y| - min(|x|, |y|) >> 1` with
    /// wrapping 32-bit arithmetic. Deliberately imprecise: callers' tuned
    /// thresholds assume exactly this bias, so it must not be replaced by a
    /// true Euclidean norm.
    pub fn length(self) -> (r: fixed_t)
        requires
            self.x.0 != i32::MIN,
            self.y.0 != i32::MIN,
        ensures
            r.0 == spec_approx_length(self.x.0 as int, self.y.0 as int),
    {
        proof {
            lemma2_to64();
        }
        let dx = self.x.abs();
        let dy = self.y.abs();
        if dx.0 < dy.0 {
            dx.add(dy).sub(dx.shr(1))
        } else {
            dx.add(dy).sub(dy.shr(1))
        }
    }

    /// The approximate length of the difference vector: the distance from
    /// `self` to `other` under the octagonal approximation.
    pub fn distance(self, other: VecF2) -> (r: fixed_t)
        requires
            wrap32(other.x.0 - self.x.0) != i32::MIN,
            wrap32(other.y.0 - self.y.0) != i32::MIN,
        ensures
            r.0 == spec_approx_length(
                wrap32(other.x.0 - self.x.0),
                wrap32(other.y.0 - self.y.0),
            ),
    {
        other.sub(self).length()
    }

    /// The dot product: the wrapping sum of the component-wise fixed-point
    /// products.
    pub fn dot(self, rhs: Self) -> (r: fixed_t)
        ensures
            r.0 == wrap32(
                spec_fixed_mul(self.x.0 as int, rhs.x.0 as int)
                    + spec_fixed_mul(self.y.0 as int, rhs.y.0 as int),
            ),
    {
        (self.x.mul(rhs.x)).add(self.y.mul(rhs.y))
    }

    /// Component-wise wrapping addition.
    pub fn add(self, rhs: Self) -> (r: Self)
        ensures
            r.x.0 == wrap32(self.x.0 + rhs.x.0),
            r.y.0 == wrap32(self.y.0 + rhs.y.0),
    {
        VecF2 { x: self.x.add(rhs.x), y: self.y.add(rhs.y) }
    }

    /// Component-wise wrapping subtraction.
    pub fn sub(self, rhs: Self) -> (r: Self)
        ensures
            r.x.0 == wrap32(self.x.0 - rhs.x.0),
            r.y.0 == wrap32(self.y.0 - rhs.y.0),
    {
        VecF2 { x: self.x.sub(rhs.x), y: self.y.sub(rhs.y) }
    }

    /// In-place component-wise accumulation.
    pub fn add_assign(&mut self, rhs: Self)
        ensures
            final(self).x.0 == wrap32(old(self).x.0 + rhs.x.0),
            final(self).y.0 == wrap32(old(self).y.0 + rhs.y.0),
    {
        *self = self.add(rhs);
    }

    /// Scales both components by a fixed-point factor.
    pub fn mul(self, rhs: fixed_t) -> (r: Self)
        ensures
            r.x.0 == spec_fixed_mul(self.x.0 as int, rhs.0 as int),
            r.y.0 == spec_fixed_mul(self.y.0 as int, rhs.0 as int),
    {
        VecF2 { x: self.x.mul(rhs), y: self.y.mul(rhs) }
    }

    /// In-place scaling by a fixed-point factor.
    pub fn mul_assign(&mut self, rhs: fixed_t)
        ensures
            final(self).x.0 == spec_fixed_mul(old(self).x.0 as int, rhs.0 as int),
            final(self).y.0 == spec_fixed_mul(old(self).y.0 as int, rhs.0 as int),
    {
        *self = self.mul(rhs);
    }

    /// The binary angle of this vector's direction from the origin, resolved
    /// through the octant analysis and the tan-to-angle table.
    pub fn to_angle(self) -> (r: Angle)
        requires
            self.x.0 != i32::MIN,
            self.y.0 != i32::MIN,
        ensures
            r.0 == spec_point_to_angle(self.x.0 as int, self.y.0 as int),
    {
        R_PointToAngle(self.x, self.y)
    }

    /// Divides both components by a fixed-point divisor, with the scalar
    /// division's saturation.
    pub fn div(self, rhs: fixed_t) -> (r: Self)
        ensures
            r.x.0 == spec_fixed_div(self.x.0 as int, rhs.0 as int),
            r.y.0 == spec_fixed_div(self.y.0 as int, rhs.0 as int),
    {
        VecF2 { x: self.x.div(rhs), y: self.y.div(rhs) }
    }
}

/// The saturating slope ratio: `num` over `den` scaled so that a slope of one
/// is 2048, clamped to 2048 (one octant's span). A denominator under 512
/// is too small for a stable ratio and yields the maximum immediately. The
/// numerator is scaled up eight-fold with 32-bit wraparound and the
/// denominator scaled down by 256, exactly as the legacy shifts did.
pub open spec fn spec_slope_div(num: int, den: int) -> int {
    if den < 512 {
        2048
    } else {
        let ans = wrap32u(num * 8) / (den / 256);
        if ans <= 2048 {
            ans
        } else {
            2048
        }
    }
}

/// Computes the saturating slope ratio used to index the tan-to-angle table.
#[allow(non_snake_case)]
pub(crate) fn SlopeDiv(num: u32, den: u32) -> (r: u32)
    ensures
        r == spec_slope_div(num as int, den as int),
        r <= 2048,
{
    if den < 512 {
        return 2048;
    }
    let ans = num.wrapping_mul(8) / (den / 256);
    if ans <= 2048 {
        ans
    } else {
        2048
    }
}

/// The angle of the direction `(xt, yt)`, in raw 2^32-per-turn units. The
/// octant is chosen from the component signs and from which magnitude
/// dominates; the tan-to-angle table resolves the slope within the octant;
/// the octant's base angle is added with the legacy orientation and the
/// legacy one-unit biases at the quadrant boundaries. The zero vector maps
/// to angle zero.
pub open spec fn spec_point_to_angle(xt: int, yt: int) -> int {
    if xt == 0 && yt == 0 {
        0
    } else if xt >= 0 {
        if yt >= 0 {
            if xt > yt {
                tan_to_angle_spec(spec_slope_div(yt, xt)) as int
            } else {
                wrap32u(0x3fff_ffff - tan_to_angle_spec(spec_slope_div(xt, yt)))
            }
        } else {
            if xt > -yt {
                0xffff_ffff - tan_to_angle_spec(spec_slope_div(-yt, xt))
            } else {
                wrap32u(0xc000_0000 + tan_to_angle_spec(spec_slope_div(xt, -yt)))
            }
        }
    } else {
        if yt >= 0 {
            if -xt > yt {
                wrap32u(0x7fff_ffff - tan_to_angle_spec(spec_slope_div(yt, -xt)))
            } else {
                wrap32u(0x4000_0000 + tan_to_angle_spec(spec_slope_div(-xt, yt)))
            }
        } else {
            if -xt > -yt {
                wrap32u(0x8000_0000 + tan_to_angle_spec(spec_slope_div(-yt, -xt)))
            } else {
                wrap32u(0xbfff_ffff - tan_to_angle_spec(spec_slope_div(-xt, -yt)))
            }
        }
    }
}

/// The angle from `(x1, y1)` toward `(x, y)`: the coordinate differences are
/// taken with 32-bit wraparound and resolved through the octant analysis of
/// [`spec_point_to_angle`].
#[allow(non_snake_case)]
pub(crate) fn R_PointToAngleSlope(x1: fixed_t, y1: fixed_t, x: fixed_t, y: fixed_t) -> (r: Angle)
    requires
        wrap32(x.0 - x1.0) != i32::MIN,
        wrap32(y.0 - y1.0) != i32::MIN,
    ensures
        r.0 == spec_point_to_angle(wrap32(x.0 - x1.0), wrap32(y.0 - y1.0)),
{
    let mut yt = y.sub(y1);
    let mut xt = x.sub(x1);
    if xt.0 == 0 && yt.0 == 0 {
        return Angle::new(0);
    }

    if xt.0 >= 0 {
        if yt.0 >= 0 {
            if xt.0 > yt.0 {
                Angle::new(tan_to_angle(SlopeDiv(yt.0 as u32, xt.0 as u32) as usize))
            } else {
                proof {
                    lemma_wrap32u_range(
                        0x3fff_ffff - tan_to_angle_spec(
                            spec_slope_div(xt.0 as int, yt.0 as int),
                        ),
                    );
                }
                Angle::new(
                    0x3fff_ffffu32.wrapping_sub(
                        tan_to_angle(SlopeDiv(xt.0 as u32, yt.0 as u32) as usize),
                    ),
                )
            }
        } else {
            yt = yt.neg();
            if xt.0 > yt.0 {
                Angle::new(
                    0xffff_ffff - tan_to_angle(SlopeDiv(yt.0 as u32, xt.0 as u32) as usize),
                )
            } else {
                proof {
                    lemma_wrap32u_range(
                        0xc000_0000 + tan_to_angle_spec(
                            spec_slope_div(xt.0 as int, yt.0 as int),
                        ),
                    );
                }
                Angle::new(
                    0xc000_0000u32.wrapping_add(
                        tan_to_angle(SlopeDiv(xt.0 as u32, yt.0 as u32) as usize),
                    ),
                )
            }
        }
    } else {
        xt = xt.neg();
        if yt.0 >= 0 {
            if xt.0 > yt.0 {
                proof {
                    lemma_wrap32u_range(
                        0x7fff_ffff - tan_to_angle_spec(
                            spec_slope_div(yt.0 as int, xt.0 as int),
                        ),
                    );
                }
                Angle::new(
                    0x7fff_ffffu32.wrapping_sub(
                        tan_to_angle(SlopeDiv(yt.0 as u32, xt.0 as u32) as usize),
                    ),
                )
            } else {
                proof {
                    lemma_wrap32u_range(
                        0x4000_0000 + tan_to_angle_spec(
                            spec_slope_div(xt.0 as int, yt.0 as int),
                        ),
                    );
                }
                Angle::new(
                    0x4000_0000u32.wrapping_add(
                        tan_to_angle(SlopeDiv(xt.0 as u32, yt.0 as u32) as usize),
                    ),
                )
            }
        } else {
            yt = yt.neg();
            if xt.0 > yt.0 {
                proof {
                    lemma_wrap32u_range(
                        0x8000_0000 + tan_to_angle_spec(
                            spec_slope_div(yt.0 as int, xt.0 as int),
                        ),
                    );
                }
                Angle::new(
                    0x8000_0000u32.wrapping_add(
                        tan_to_angle(SlopeDiv(yt.0 as u32, xt.0 as u32) as usize),
                    ),
                )
            } else {
                proof {
                    lemma_wrap32u_range(
                        0xbfff_ffff - tan_to_angle_spec(
                            spec_slope_div(xt.0 as int, yt.0 as int),
                        ),
                    );
                }
                Angle::new(
                    0xbfff_ffffu32.wrapping_sub(
                        tan_to_angle(SlopeDiv(xt.0 as u32, yt.0 as u32) as usize),
                    ),
                )
            }
        }
    }
}

/// The angle of the vector `(x, y)` as seen from the origin.
#[allow(non_snake_case)]
pub(crate) fn R_PointToAngle(x: fixed_t, y: fixed_t) -> (r: Angle)
    requires
        x.0 != i32::MIN,
        y.0 != i32::MIN,
    ensures
        r.0 == spec_point_to_angle(x.0 as int, y.0 as int),
{
    proof {
        lemma_wrap32_small(x.0 as int);
        lemma_wrap32_small(y.0 as int);
    }
    R_PointToAngleSlope(fixed_t(0), fixed_t(0), x, y)
}

/// Whether `a` and `b` differ in sign bit. This is the explicit form of the
/// legacy raw-bit trick that tested the sign of `a ^ b`.
pub(crate) fn signs_differ(a: i32, b: i32) -> (r: bool)
    ensures
        r == ((a < 0) != (b < 0)),
{
    (a < 0) != (b < 0)
}

/// Whether an odd number of the four arguments is negative: the explicit form
/// of testing the sign of `a ^ b ^ c ^ d`. When the line direction and the
/// point offset mismatch this way, the side is decided without a cross
/// product.
pub(crate) fn sign_mismatch(a: i32, b: i32, c: i32, d: i32) -> (r: bool)
    ensures
        r == (((a < 0) != (b < 0)) != ((c < 0) != (d < 0))),
{
    ((a < 0) != (b < 0)) != ((c < 0) != (d < 0))
}

/// Which side of a splitting line the point `(px, py)` falls on: 0 for front,
/// 1 for back. The line passes through `(ox, oy)` with direction
/// `(ldx, ldy)`; all values are raw fixed-point bits.
///
/// An axis-aligned line is classified by coordinate comparison alone, the
/// direction's other component breaking ties; a point exactly on such a line
/// counts as if on the origin's side of the comparison (the `<=`). The
/// general case first looks for a sign mismatch between the direction and the
/// point offset, then compares the scaled cross products, each factor's
/// dominant operand shifted down 16 bits before the fixed-point multiply; a
/// point exactly on the line goes to the back (1). These tie-breaks are
/// fixed: spatial-index traversal depends on their consistency, not on
/// geometric truth.
pub open spec fn spec_point_on_side(
    ox: int,
    oy: int,
    ldx: int,
    ldy: int,
    px: int,
    py: int,
) -> int {
    if ldx == 0 {
        if px <= ox {
            if ldy > 0 {
                1
            } else {
                0
            }
        } else {
            if ldy < 0 {
                1
            } else {
                0
            }
        }
    } else if ldy == 0 {
        if py <= oy {
            if ldx < 0 {
                1
            } else {
                0
            }
        } else {
            if ldx > 0 {
                1
            } else {
                0
            }
        }
    } else {
        let dx = wrap32(px - ox);
        let dy = wrap32(py - oy);
        if ((ldy < 0) != (ldx < 0)) != ((dx < 0) != (dy < 0)) {
            if (ldy < 0) != (dx < 0) {
                1
            } else {
                0
            }
        } else {
            if spec_fixed_mul(dy, ldx / 0x1_0000) >= spec_fixed_mul(ldy / 0x1_0000, dx) {
                1
            } else {
                0
            }
        }
    }
}

/// Classifies a point against a line given by origin and direction. Shared by
/// the free two-point classifier and the space-partition node's.
pub(crate) fn side_of_line(
    ox: fixed_t,
    oy: fixed_t,
    ldx: fixed_t,
    ldy: fixed_t,
    px: fixed_t,
    py: fixed_t,
) -> (r: usize)
    ensures
        r == spec_point_on_side(ox.0 as int, oy.0 as int, ldx.0 as int, ldy.0 as int,
            px.0 as int, py.0 as int),
{
    if ldx.0 == 0 {
        if px.0 <= ox.0 {
            if ldy.0 > 0 {
                return 1;
            } else {
                return 0;
            }
        } else {
            if ldy.0 < 0 {
                return 1;
            } else {
                return 0;
            }
        }
    }
    if ldy.0 == 0 {
        if py.0 <= oy.0 {
            if ldx.0 < 0 {
                return 1;
            } else {
                return 0;
            }
        } else {
            if ldx.0 > 0 {
                return 1;
            } else {
                return 0;
            }
        }
    }

    let dx = px.sub(ox);
    let dy = py.sub(oy);

    if sign_mismatch(ldy.0, ldx.0, dx.0, dy.0) {
        if signs_differ(ldy.0, dx.0) {
            return 1;
        } else {
            return 0;
        }
    }
    proof {
        lemma2_to64();
    }
    if dy.mul(ldx.shr(16)).0 >= ldy.shr(16).mul(dx).0 {
        return 1;
    }
    0
}

/// Determines which side of the line through `ls` and `le` the point `v` is
/// on: 0 for front, 1 for back, with the tie-breaks of
/// [`spec_point_on_side`].
pub fn point_on_side(ls: &VecF2, le: &VecF2, v: &VecF2) -> (r: usize)
    ensures
        r == spec_point_on_side(
            ls.x.0 as int,
            ls.y.0 as int,
            wrap32(le.x.0 - ls.x.0),
            wrap32(le.y.0 - ls.y.0),
            v.x.0 as int,
            v.y.0 as int,
        ),
{
    let ldx = le.x.sub(ls.x);
    let ldy = le.y.sub(ls.y);
    side_of_line(ls.x, ls.y, ldx, ldy, v.x, v.y)
}

/// Point-on-side determinism at the canonical tie-break: a horizontal
/// splitting line pointing rightward classifies every point with the line's
/// own y coordinate to the front (0). The classifier is a pure function of
/// its arguments, so this holds on every call that reaches the axis-aligned
/// branch.
pub proof fn lemma_horizontal_line_front(ox: int, oy: int, ldx: int, px: int)
    requires
        ldx > 0,
    ensures
        spec_point_on_side(ox, oy, ldx, 0, px, oy) == 0,
{
}

impl Default for VecF2 {
    /// The zero vector.
    fn default() -> (r: Self)
        ensures
            r.x.0 == 0,
            r.y.0 == 0,
    {
        VecF2 { x: fixed_t(0), y: fixed_t(0) }
    }
}

} // verus!

//! Points, curves and the arithmetic on their coordinates.
//!
//! Coordinates are 32-bit signed integers. Everything here is total: the
//! circle test works in wide integers, a new curve's control points lie
//! between its anchors, and a dragged point wraps around the 32-bit range.

use vstd::prelude::*;

verus! {

/// Radius of a handle, both as drawn and as hit by the pointer.
pub const POINT_RADIUS: u32 = 4;

/// A position on the drawing surface.
#[derive(Clone, Copy, Debug, PartialEq, Eq, Structural)]
pub struct Point {
    pub x: i32,
    pub y: i32,
}

/// Names one of the four points of a curve.
#[derive(Clone, Copy, Debug, PartialEq, Eq, Structural)]
pub enum PointHandle {
    A,
    B,
    C,
    D,
}

/// A cubic Bezier curve: anchors `a` and `d`, control points `b` and `c`.
#[derive(Clone, Copy, Debug, PartialEq, Eq, Structural)]
pub struct Curve {
    pub a: Point,
    pub b: Point,
    pub c: Point,
    pub d: Point,
}

/// Squared Euclidean distance between two points.
pub open spec fn squared_distance(p: Point, q: Point) -> int {
    (p.x - q.x) * (p.x - q.x) + (p.y - q.y) * (p.y - q.y)
}

/// Whether `point` lies in the closed disc of the given radius around `center`.
pub open spec fn inside_circle(center: Point, radius: u32, point: Point) -> bool {
    squared_distance(point, center) <= radius * radius
}

/// The rational number `n / 3` with its fractional part dropped, that is,
/// rounded toward zero.
pub open spec fn truncated_third(n: int) -> int {
    if n >= 0 {
        n / 3
    } else {
        -((-n) / 3)
    }
}

/// The coordinate one third of the way from `from` to `to`:
/// `from + (to - from) / 3`, truncated toward zero.
pub open spec fn one_third_along(from: int, to: int) -> int {
    truncated_third(3 * from + (to - from))
}

/// The coordinate two thirds of the way from `from` to `to`:
/// `from + 2 * (to - from) / 3`, truncated toward zero.
pub open spec fn two_thirds_along(from: int, to: int) -> int {
    truncated_third(3 * from + 2 * (to - from))
}

/// The 32-bit signed integer that differs from `v` by a multiple of 2^32.
pub open spec fn wrap_i32(v: int) -> int {
    (v + 0x8000_0000) % 0x1_0000_0000 - 0x8000_0000
}

/// Tests whether `point` lies within `radius` of `center`, the rim included.
pub fn is_point_inside_circle(center: Point, radius: u32, point: Point) -> (inside: bool)
    ensures
        inside == inside_circle(center, radius, point),
{
    let dx: i128 = point.x as i128 - center.x as i128;
    let dy: i128 = point.y as i128 - center.y as i128;
    let r: i128 = radius as i128;
    assert(0 <= dx * dx <= 0x1_0000_0000 * 0x1_0000_0000) by (nonlinear_arith)
        requires
            -0x1_0000_0000 <= dx <= 0x1_0000_0000,
    ;
    assert(0 <= dy * dy <= 0x1_0000_0000 * 0x1_0000_0000) by (nonlinear_arith)
        requires
            -0x1_0000_0000 <= dy <= 0x1_0000_0000,
    ;
    assert(0 <= r * r <= 0x1_0000_0000 * 0x1_0000_0000) by (nonlinear_arith)
        requires
            0 <= r <= 0x1_0000_0000,
    ;
    dx * dx + dy * dy <= r * r
}

/// One third of the way from `from` to `to`.
fn third(from: i32, to: i32) -> (t: i32)
    ensures
        t == one_third_along(from as int, to as int),
{
    let n: i64 = 3 * (from as i64) + (to as i64 - from as i64);
    (n / 3) as i32
}

/// Two thirds of the way from `from` to `to`.
fn two_thirds(from: i32, to: i32) -> (t: i32)
    ensures
        t == two_thirds_along(from as int, to as int),
{
    let n: i64 = 3 * (from as i64) + 2 * (to as i64 - from as i64);
    (n / 3) as i32
}

impl Point {
    /// The point with the given coordinates.
    pub fn new(x: i32, y: i32) -> (p: Point)
        ensures
            p == (Point { x, y }),
    {
        Point { x, y }
    }

    /// This point carried along while the pointer goes from `from` to `to`:
    /// each coordinate gains the pointer's step and wraps around the 32-bit
    /// range.
    pub open spec fn spec_dragged(self, from: Point, to: Point) -> Point {
        Point {
            x: wrap_i32(self.x + (to.x - from.x)) as i32,
            y: wrap_i32(self.y + (to.y - from.y)) as i32,
        }
    }

    /// Moves the point by the pointer's step from `from` to `to`.
    #[verifier::when_used_as_spec(spec_dragged)]
    pub fn dragged(self, from: Point, to: Point) -> (p: Point)
        ensures
            p == self.spec_dragged(from, to),
    {
        Point {
            x: self.x.wrapping_add(to.x.wrapping_sub(from.x)),
            y: self.y.wrapping_add(to.y.wrapping_sub(from.y)),
        }
    }
}

impl PointHandle {
    /// Place of the handle in the order in which the points of one curve are
    /// tried against the pointer.
    pub open spec fn rank(self) -> int {
        match self {
            PointHandle::A => 0,
            PointHandle::B => 1,
            PointHandle::C => 2,
            PointHandle::D => 3,
        }
    }
}

impl Curve {
    /// The curve with the given anchors and control points.
    pub fn new(a: Point, b: Point, c: Point, d: Point) -> (curve: Curve)
        ensures
            curve == (Curve { a, b, c, d }),
    {
        Curve { a, b, c, d }
    }

    /// The straight curve from `a` to `d`: its control points sit on the
    /// segment, one third and two thirds of the way along.
    pub open spec fn spec_straight(a: Point, d: Point) -> Curve {
        Curve {
            a,
            b: Point {
                x: one_third_along(a.x as int, d.x as int) as i32,
                y: one_third_along(a.y as int, d.y as int) as i32,
            },
            c: Point {
                x: two_thirds_along(a.x as int, d.x as int) as i32,
                y: two_thirds_along(a.y as int, d.y as int) as i32,
            },
            d,
        }
    }

    /// Builds the straight curve from `a` to `d`.
    #[verifier::when_used_as_spec(spec_straight)]
    pub fn straight(a: Point, d: Point) -> (curve: Curve)
        ensures
            curve == Curve::spec_straight(a, d),
    {
        let b = Point { x: third(a.x, d.x), y: third(a.y, d.y) };
        let c = Point { x: two_thirds(a.x, d.x), y: two_thirds(a.y, d.y) };
        Curve { a, b, c, d }
    }

    /// The point that `handle` names.
    pub open spec fn spec_point(&self, handle: PointHandle) -> Point {
        match handle {
            PointHandle::A => self.a,
            PointHandle::B => self.b,
            PointHandle::C => self.c,
            PointHandle::D => self.d,
        }
    }

    /// Returns the point that `handle` names.
    #[verifier::when_used_as_spec(spec_point)]
    pub fn point(&self, handle: PointHandle) -> (p: Point)
        ensures
            p == self.spec_point(handle),
    {
        match handle {
            PointHandle::A => self.a,
            PointHandle::B => self.b,
            PointHandle::C => self.c,
            PointHandle::D => self.d,
        }
    }

    /// This curve with the point that `handle` names replaced by `p`.
    pub open spec fn spec_with_point(self, handle: PointHandle, p: Point) -> Curve {
        match handle {
            PointHandle::A => Curve { a: p, ..self },
            PointHandle::B => Curve { b: p, ..self },
            PointHandle::C => Curve { c: p, ..self },
            PointHandle::D => Curve { d: p, ..self },
        }
    }

    /// Returns this curve with the point that `handle` names replaced by `p`.
    #[verifier::when_used_as_spec(spec_with_point)]
    pub fn with_point(self, handle: PointHandle, p: Point) -> (curve: Curve)
        ensures
            curve == self.spec_with_point(handle, p),
    {
        match handle {
            PointHandle::A => Curve { a: p, ..self },
            PointHandle::B => Curve { b: p, ..self },
            PointHandle::C => Curve { c: p, ..self },
            PointHandle::D => Curve { d: p, ..self },
        }
    }

    /// This curve after the point that `handle` names has followed the pointer
    /// from `from` to `to`; the other three points stay.
    pub open spec fn spec_dragged(self, handle: PointHandle, from: Point, to: Point) -> Curve {
        self.spec_with_point(handle, self.spec_point(handle).spec_dragged(from, to))
    }

    /// Moves the point that `handle` names by the pointer's step from `from`
    /// to `to`.
    #[verifier::when_used_as_spec(spec_dragged)]
    pub fn dragged(self, handle: PointHandle, from: Point, to: Point) -> (curve: Curve)
        ensures
            curve == self.spec_dragged(handle, from, to),
    {
        self.with_point(handle, self.point(handle).dragged(from, to))
    }
}

/// Truncation drops less than one whole unit and never moves away from zero.
pub proof fn lemma_truncated_third_bounds(n: int)
    ensures
        n >= 0 ==> 3 * truncated_third(n) <= n < 3 * truncated_third(n) + 3,
        n <= 0 ==> 3 * truncated_third(n) - 3 < n <= 3 * truncated_third(n),
        n % 3 == 0 ==> 3 * truncated_third(n) == n,
{
}

/// The control points of a straight curve lie between its anchors, coordinate
/// by coordinate, in the order anchor, first control, second control, anchor.
pub proof fn lemma_thirds_between(from: int, to: int)
    ensures
        from <= to ==> from <= one_third_along(from, to) <= two_thirds_along(from, to) <= to,
        from >= to ==> from >= one_third_along(from, to) >= two_thirds_along(from, to) >= to,
{
}

/// Where the distance between the anchors is a multiple of three, the control
/// points sit at the exact thirds.
pub proof fn lemma_thirds_exact(from: int, step: int)
    ensures
        one_third_along(from, from + 3 * step) == from + step,
        two_thirds_along(from, from + 3 * step) == from + 2 * step,
{
}

/// Wrapping yields a 32-bit value congruent to the input, and changes nothing
/// that already fits.
pub proof fn lemma_wrap_i32(v: int)
    ensures
        i32::MIN <= wrap_i32(v) <= i32::MAX,
        (wrap_i32(v) - v) % 0x1_0000_0000 == 0,
        i32::MIN <= v <= i32::MAX ==> wrap_i32(v) == v,
{
}

/// While no coordinate leaves the 32-bit range, a dragged point moves by
/// exactly the pointer's step.
pub proof fn lemma_dragged_exact(p: Point, from: Point, to: Point)
    requires
        i32::MIN <= p.x + (to.x - from.x) <= i32::MAX,
        i32::MIN <= p.y + (to.y - from.y) <= i32::MAX,
    ensures
        p.spec_dragged(from, to).x == p.x + (to.x - from.x),
        p.spec_dragged(from, to).y == p.y + (to.y - from.y),
{
}

/// A point that sits under the pointer stays under it when dragged.
pub proof fn lemma_dragged_tracks_pointer(from: Point, to: Point)
    ensures
        from.spec_dragged(from, to) == to,
{
}

/// Dragging a curve moves the named point and no other.
pub proof fn lemma_curve_dragged(curve: Curve, handle: PointHandle, from: Point, to: Point)
    ensures
        curve.spec_dragged(handle, from, to).spec_point(handle) == curve.spec_point(
            handle,
        ).spec_dragged(from, to),
        forall|other: PointHandle|
            other != handle ==> #[trigger] curve.spec_dragged(handle, from, to).spec_point(other)
                == curve.spec_point(other),
{
}

} // verus!

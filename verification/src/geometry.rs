//! Rays, planes and points on a fixed-point lattice.
//!
//! Every coordinate and every distance is a whole number of thousandths of a
//! world unit, so all arithmetic here is exact integer arithmetic. The only
//! rounding is the one that division brings, and it is always downwards.

use vstd::math::abs;
use vstd::prelude::*;

verus! {

/// How many lattice steps make one world unit.
pub const UNIT: i32 = 1000;

/// A point or a displacement as mathematical integers, in thousandths of a
/// world unit. This is what a [`Vec3`] stands for in contracts.
pub struct Vector {
    pub x: int,
    pub y: int,
    pub z: int,
}

impl Vector {
    /// The dot product.
    pub open spec fn dot(self, other: Vector) -> int {
        self.x * other.x + self.y * other.y + self.z * other.z
    }

    /// The displacement that leads from `other` to `self`.
    pub open spec fn minus(self, other: Vector) -> Vector {
        Vector { x: self.x - other.x, y: self.y - other.y, z: self.z - other.z }
    }

    /// The point that the displacement `other` leads to from `self`.
    pub open spec fn plus(self, other: Vector) -> Vector {
        Vector { x: self.x + other.x, y: self.y + other.y, z: self.z + other.z }
    }

    /// `self` taken `t` thousandths of a time, each coordinate rounded down
    /// to the lattice.
    pub open spec fn scaled(self, t: int) -> Vector {
        Vector {
            x: (self.x * t) / (UNIT as int),
            y: (self.y * t) / (UNIT as int),
            z: (self.z * t) / (UNIT as int),
        }
    }
}

/// A point or a displacement of the lattice.
#[derive(Clone, Copy, Debug, PartialEq, Eq, Structural)]
pub struct Vec3 {
    pub x: i32,
    pub y: i32,
    pub z: i32,
}

impl View for Vec3 {
    type V = Vector;

    open spec fn view(&self) -> Vector {
        Vector { x: self.x as int, y: self.y as int, z: self.z as int }
    }
}

impl Vec3 {
    /// The point with the given coordinates, in thousandths.
    pub fn new(x: i32, y: i32, z: i32) -> (v: Vec3)
        ensures
            v == (Vec3 { x, y, z }),
    {
        Vec3 { x, y, z }
    }
}

/// A half-line: the points `origin + t * direction` for `t >= 0`.
///
/// A direction of length one world unit makes `t` a distance; nothing here
/// depends on that.
#[derive(Clone, Copy, Debug, PartialEq, Eq, Structural)]
pub struct Ray {
    pub origin: Vec3,
    pub direction: Vec3,
}

/// The camera could not turn a cursor position into a ray.
#[derive(Clone, Copy, Debug, PartialEq, Eq, Structural)]
pub struct NoRayError;

/// `direction . normal`: zero exactly when the ray runs parallel to the plane.
pub open spec fn plane_denominator(ray: Ray, plane_normal: Vec3) -> int {
    ray.direction@.dot(plane_normal@)
}

/// `(plane_point - origin) . normal`: how far the ray's origin is from the
/// plane, measured against the normal.
pub open spec fn plane_numerator(ray: Ray, plane_point: Vec3, plane_normal: Vec3) -> int {
    plane_point@.minus(ray.origin@).dot(plane_normal@)
}

/// The ray never meets the plane, or lies in it.
pub open spec fn is_parallel(ray: Ray, plane_normal: Vec3) -> bool {
    plane_denominator(ray, plane_normal) == 0
}

/// The line through the ray meets the plane at a negative `t`: numerator and
/// denominator have opposite signs.
pub open spec fn is_behind(ray: Ray, plane_point: Vec3, plane_normal: Vec3) -> bool {
    let num = plane_numerator(ray, plane_point, plane_normal);
    let den = plane_denominator(ray, plane_normal);
    (num < 0 && den > 0) || (num > 0 && den < 0)
}

/// `num / den` in thousandths, rounded down, for a quotient that is not
/// negative.
pub open spec fn scaled_quotient(num: int, den: int) -> int {
    if den > 0 {
        (UNIT * num) / den
    } else {
        (UNIT * (-num)) / (-den)
    }
}

/// Where along the ray the plane lies, if it lies ahead.
pub open spec fn intersect_plane_spec(ray: Ray, plane_point: Vec3, plane_normal: Vec3) -> Option<
    int,
> {
    if is_parallel(ray, plane_normal) || is_behind(ray, plane_point, plane_normal) {
        None
    } else {
        Some(
            scaled_quotient(
                plane_numerator(ray, plane_point, plane_normal),
                plane_denominator(ray, plane_normal),
            ),
        )
    }
}

/// The nearest value that a coordinate can hold.
pub open spec fn clamp_coordinate(v: int) -> int {
    if v < i32::MIN {
        i32::MIN as int
    } else if v > i32::MAX {
        i32::MAX as int
    } else {
        v
    }
}

/// The lattice point nearest to `v`: each coordinate on its own is kept
/// within the lattice.
pub open spec fn saturate(v: Vector) -> Vec3 {
    Vec3 {
        x: clamp_coordinate(v.x) as i32,
        y: clamp_coordinate(v.y) as i32,
        z: clamp_coordinate(v.z) as i32,
    }
}

/// The point `origin + t * direction` of the ray, with `t` in thousandths.
pub open spec fn point_at_spec(ray: Ray, t: int) -> Vec3 {
    saturate(ray.origin@.plus(ray.direction@.scaled(t)))
}

proof fn lemma_product_bound(a: int, b: int, la: int, lb: int)
    by (nonlinear_arith)
    requires
        -la <= a <= la,
        -lb <= b <= lb,
    ensures
        -(la * lb) <= a * b <= la * lb,
{
}

/// `a . b` for a first factor that may be a difference of two points.
fn wide_dot(ax: i64, ay: i64, az: i64, b: &Vec3) -> (r: i128)
    requires
        -0x1_0000_0000 <= ax <= 0x1_0000_0000,
        -0x1_0000_0000 <= ay <= 0x1_0000_0000,
        -0x1_0000_0000 <= az <= 0x1_0000_0000,
    ensures
        r == ax * b.x + ay * b.y + az * b.z,
        -0x1_8000_0000_0000_0000 <= r <= 0x1_8000_0000_0000_0000,
{
    proof {
        lemma_product_bound(ax as int, b.x as int, 0x1_0000_0000, 0x8000_0000);
        lemma_product_bound(ay as int, b.y as int, 0x1_0000_0000, 0x8000_0000);
        lemma_product_bound(az as int, b.z as int, 0x1_0000_0000, 0x8000_0000);
    }
    let px: i128 = (ax as i128) * (b.x as i128);
    let py: i128 = (ay as i128) * (b.y as i128);
    let pz: i128 = (az as i128) * (b.z as i128);
    px + py + pz
}

/// The parameter `t`, in thousandths, at which the ray meets the plane through
/// `plane_point` with normal `plane_normal`.
///
/// There is none when the ray is parallel to the plane, and none when the
/// plane lies behind the ray's origin. An origin on the plane is a hit at
/// `t = 0`. The dot products are exact integers, so "parallel" is an exact
/// test for zero.
pub fn intersect_plane(ray: &Ray, plane_point: &Vec3, plane_normal: &Vec3) -> (t: Option<i128>)
    ensures
        is_parallel(*ray, *plane_normal) ==> t is None,
        is_behind(*ray, *plane_point, *plane_normal) ==> t is None,
        t is None ==> is_parallel(*ray, *plane_normal) || is_behind(
            *ray,
            *plane_point,
            *plane_normal,
        ),
        t matches Some(d) ==> d >= 0 && intersect_plane_spec(*ray, *plane_point, *plane_normal)
            == Some(d as int),
{
    let den: i128 = wide_dot(
        ray.direction.x as i64,
        ray.direction.y as i64,
        ray.direction.z as i64,
        plane_normal,
    );
    let num: i128 = wide_dot(
        plane_point.x as i64 - ray.origin.x as i64,
        plane_point.y as i64 - ray.origin.y as i64,
        plane_point.z as i64 - ray.origin.z as i64,
        plane_normal,
    );
    if den == 0 {
        None
    } else if (num < 0 && den > 0) || (num > 0 && den < 0) {
        None
    } else if den > 0 {
        proof {
            vstd::arithmetic::div_mod::lemma_div_pos_is_pos(UNIT * num, den as int);
        }
        Some((UNIT as i128 * num) / den)
    } else {
        proof {
            vstd::arithmetic::div_mod::lemma_div_pos_is_pos(UNIT * (-num), -den);
        }
        Some((UNIT as i128 * (-num)) / (-den))
    }
}

/// Beyond this parameter, in either direction, every coordinate that moves
/// at all has left the lattice.
const FAR: i128 = 0x1000_0000_0000;

proof fn lemma_far_product(direction: int, t: int, far: int)
    by (nonlinear_arith)
    requires
        direction != 0,
        far >= 0,
        t > far || t < -far,
    ensures
        (direction > 0) == (t > 0) ==> direction * t > far,
        (direction > 0) != (t > 0) ==> direction * t < -far,
{
}

/// One coordinate of [`point_at`].
fn advance(origin: i32, direction: i32, t: i128) -> (c: i32)
    ensures
        c == clamp_coordinate(origin + (direction * t) / (UNIT as int)),
{
    if direction == 0 || t == 0 {
        assert(direction * t == 0) by (nonlinear_arith)
            requires
                direction == 0 || t == 0,
        ;
        origin
    } else if t > FAR || t < -FAR {
        proof {
            lemma_far_product(direction as int, t as int, FAR as int);
        }
        if (direction > 0) == (t > 0) {
            proof {
                vstd::arithmetic::div_mod::lemma_div_is_ordered(
                    FAR as int,
                    direction * t,
                    UNIT as int,
                );
            }
            i32::MAX
        } else {
            proof {
                vstd::arithmetic::div_mod::lemma_div_is_ordered(
                    direction * t,
                    -FAR,
                    UNIT as int,
                );
            }
            i32::MIN
        }
    } else {
        proof {
            lemma_product_bound(direction as int, t as int, 0x8000_0000, FAR as int);
        }
        let product: i128 = (direction as i128) * t;
        let steps: i128 = if product >= 0 {
            product / (UNIT as i128)
        } else {
            -((UNIT as i128 - 1 - product) / (UNIT as i128))
        };
        let moved: i128 = origin as i128 + steps;
        if moved > i32::MAX as i128 {
            i32::MAX
        } else if moved < i32::MIN as i128 {
            i32::MIN
        } else {
            moved as i32
        }
    }
}

/// The point of the ray at parameter `t`, in thousandths:
/// `origin + t * direction`.
///
/// The product is rounded down to the lattice. A point that would lie beyond
/// the lattice is moved, coordinate by coordinate, to its edge.
pub fn point_at(ray: &Ray, t: i128) -> (p: Vec3)
    ensures
        p == point_at_spec(*ray, t as int),
{
    Vec3 {
        x: advance(ray.origin.x, ray.direction.x, t),
        y: advance(ray.origin.y, ray.direction.y, t),
        z: advance(ray.origin.z, ray.direction.z, t),
    }
}

/// Every coordinate of `v` is one that the lattice holds.
pub open spec fn in_lattice(v: Vector) -> bool {
    &&& i32::MIN <= v.x <= i32::MAX
    &&& i32::MIN <= v.y <= i32::MAX
    &&& i32::MIN <= v.z <= i32::MAX
}

/// How far `point` lies off the plane, measured against the normal: zero
/// exactly for the points of the plane.
pub open spec fn off_plane(point: Vector, plane_point: Vec3, plane_normal: Vec3) -> int {
    point.minus(plane_point@).dot(plane_normal@)
}

proof fn lemma_remainder_term(r: int, n: int)
    by (nonlinear_arith)
    requires
        0 <= r < 1000,
    ensures
        -(999 * abs(n)) <= r * n <= 999 * abs(n),
{
}

proof fn lemma_coordinate_off_plane(o: int, d: int, p: int, n: int, t: int, e: int, r: int)
    by (nonlinear_arith)
    requires
        d * t == 1000 * e + r,
    ensures
        1000 * ((o + e - p) * n) == t * (d * n) - 1000 * ((p - o) * n) - r * n,
{
}

proof fn lemma_distribute(t: int, a: int, b: int, c: int)
    by (nonlinear_arith)
    ensures
        t * (a + b + c) == t * a + t * b + t * c,
{
}

/// The point that [`point_at`] finds for the distance that
/// [`intersect_plane`] returns lies on the plane, up to the two roundings.
///
/// A thousand times its offset from the plane, measured against the normal,
/// is smaller in magnitude than `slack`: the magnitude of the denominator
/// plus a thousand times the magnitudes of the normal's three coordinates.
/// For a direction and a normal of length one world unit, the point is
/// therefore less than three lattice steps away from the plane.
///
/// This is stated of the point before it is moved to the lattice's edge;
/// where it lies within the lattice, it is the point that `point_at` returns.
pub proof fn lemma_hit_lies_near_plane(ray: Ray, plane_point: Vec3, plane_normal: Vec3)
    requires
        intersect_plane_spec(ray, plane_point, plane_normal) is Some,
    ensures
        ({
            let t = intersect_plane_spec(ray, plane_point, plane_normal).unwrap();
            let hit = ray.origin@.plus(ray.direction@.scaled(t));
            let slack = abs(plane_denominator(ray, plane_normal)) + UNIT * (abs(
                plane_normal.x as int,
            ) + abs(plane_normal.y as int) + abs(plane_normal.z as int));
            &&& -slack < UNIT * off_plane(hit, plane_point, plane_normal) < slack
            &&& in_lattice(hit) ==> point_at_spec(ray, t)@ == hit
        }),
{
    let num = plane_numerator(ray, plane_point, plane_normal);
    let den = plane_denominator(ray, plane_normal);
    let t = intersect_plane_spec(ray, plane_point, plane_normal).unwrap();
    let d = ray.direction@;
    let n = plane_normal@;
    let e = d.scaled(t);
    let r = Vector { x: (d.x * t) % 1000, y: (d.y * t) % 1000, z: (d.z * t) % 1000 };
    let o = ray.origin@;
    let p = plane_point@;
    lemma_coordinate_off_plane(o.x, d.x, p.x, n.x, t, e.x, r.x);
    lemma_coordinate_off_plane(o.y, d.y, p.y, n.y, t, e.y, r.y);
    lemma_coordinate_off_plane(o.z, d.z, p.z, n.z, t, e.z, r.z);
    lemma_distribute(t, d.x * n.x, d.y * n.y, d.z * n.z);
    assert(1000 * off_plane(o.plus(e), plane_point, plane_normal) == t * den - 1000 * num - r.dot(
        n,
    ));
    lemma_remainder_term(r.x, n.x);
    lemma_remainder_term(r.y, n.y);
    lemma_remainder_term(r.z, n.z);
    // what the rounding of `t` leaves: less than the denominator
    if den > 0 {
        vstd::arithmetic::div_mod::lemma_fundamental_div_mod(1000 * num, den);
        vstd::arithmetic::div_mod::lemma_mod_bound(1000 * num, den);
        assert(den * t == t * den) by (nonlinear_arith);
    } else {
        vstd::arithmetic::div_mod::lemma_fundamental_div_mod(1000 * (-num), -den);
        vstd::arithmetic::div_mod::lemma_mod_bound(1000 * (-num), -den);
        assert((-den) * t == -(t * den)) by (nonlinear_arith);
    }
}

} // verus!

//! Points, vectors, rays and axis-aligned rectangles in fixed-point
//! coordinates, with their mathematical models.
//!
//! The optical axis is the z-axis. Each executable type has a ghost model
//! (`...V`) over unbounded integers reached through `@`; every executable
//! operation returns exactly what its spec mirror computes.

use vstd::prelude::*;

use crate::fixed::{
    add_fp, div_fp, fp_add, fp_div, fp_in_range, fp_mul, fp_neg, fp_sqrt, fp_sub, mul_fp, neg_fp,
    sqrt_fp, sub_fp, FP_MAX, FP_ONE,
};

verus! {

#[derive(Clone, Copy, Debug, PartialEq, Eq, Structural)]
pub struct Vec3 {
    pub x: i64,
    pub y: i64,
    pub z: i64,
}

pub struct Vec3V {
    pub x: int,
    pub y: int,
    pub z: int,
}

impl View for Vec3 {
    type V = Vec3V;

    open spec fn view(&self) -> Vec3V {
        Vec3V { x: self.x as int, y: self.y as int, z: self.z as int }
    }
}

#[derive(Clone, Copy, Debug, PartialEq, Eq, Structural)]
pub struct Point2 {
    pub x: i64,
    pub y: i64,
}

pub struct Point2V {
    pub x: int,
    pub y: int,
}

impl View for Point2 {
    type V = Point2V;

    open spec fn view(&self) -> Point2V {
        Point2V { x: self.x as int, y: self.y as int }
    }
}

/// A ray: origin plus direction, not necessarily normalized.
#[derive(Clone, Copy, Debug, PartialEq, Eq, Structural)]
pub struct Ray {
    pub o: Vec3,
    pub d: Vec3,
}

pub struct RayV {
    pub o: Vec3V,
    pub d: Vec3V,
}

impl View for Ray {
    type V = RayV;

    open spec fn view(&self) -> RayV {
        RayV { o: self.o@, d: self.d@ }
    }
}

/// An axis-aligned rectangle on a plane orthogonal to the optical axis.
#[derive(Clone, Copy, Debug, PartialEq, Eq, Structural)]
pub struct Bounds2 {
    pub p_min: Point2,
    pub p_max: Point2,
}

pub struct Bounds2V {
    pub p_min: Point2V,
    pub p_max: Point2V,
}

impl View for Bounds2 {
    type V = Bounds2V;

    open spec fn view(&self) -> Bounds2V {
        Bounds2V { p_min: self.p_min@, p_max: self.p_max@ }
    }
}

pub open spec fn v3_in_range(v: Vec3V) -> bool {
    fp_in_range(v.x) && fp_in_range(v.y) && fp_in_range(v.z)
}

pub open spec fn ray_in_range(r: RayV) -> bool {
    v3_in_range(r.o) && v3_in_range(r.d)
}

pub open spec fn v3_add(a: Vec3V, b: Vec3V) -> Vec3V {
    Vec3V { x: fp_add(a.x, b.x), y: fp_add(a.y, b.y), z: fp_add(a.z, b.z) }
}

pub open spec fn v3_sub(a: Vec3V, b: Vec3V) -> Vec3V {
    Vec3V { x: fp_sub(a.x, b.x), y: fp_sub(a.y, b.y), z: fp_sub(a.z, b.z) }
}

pub open spec fn v3_neg(a: Vec3V) -> Vec3V {
    Vec3V { x: fp_neg(a.x), y: fp_neg(a.y), z: fp_neg(a.z) }
}

pub open spec fn v3_scale(a: Vec3V, s: int) -> Vec3V {
    Vec3V { x: fp_mul(a.x, s), y: fp_mul(a.y, s), z: fp_mul(a.z, s) }
}

pub open spec fn v3_dot(a: Vec3V, b: Vec3V) -> int {
    fp_add(fp_add(fp_mul(a.x, b.x), fp_mul(a.y, b.y)), fp_mul(a.z, b.z))
}

pub open spec fn v3_len(a: Vec3V) -> int {
    fp_sqrt(v3_dot(a, a))
}

pub open spec fn v3_normalize(a: Vec3V) -> Vec3V {
    let l = v3_len(a);
    Vec3V { x: fp_div(a.x, l), y: fp_div(a.y, l), z: fp_div(a.z, l) }
}

/// Flips `n` so it lies in the same hemisphere as `v`.
pub open spec fn v3_faceforward(n: Vec3V, v: Vec3V) -> Vec3V {
    if v3_dot(n, v) < 0 {
        v3_neg(n)
    } else {
        n
    }
}

/// The point `r.o + t * r.d`.
pub open spec fn ray_point(r: RayV, t: int) -> Vec3V {
    v3_add(r.o, v3_scale(r.d, t))
}

/// Linear interpolation `(1 - t) * a + t * b`.
pub open spec fn fp_lerp(t: int, a: int, b: int) -> int {
    fp_add(fp_mul(fp_sub(FP_ONE as int, t), a), fp_mul(t, b))
}

/// The inverted rectangle that any point-union moves toward an actual point.
pub open spec fn b2_empty() -> Bounds2V {
    Bounds2V {
        p_min: Point2V { x: FP_MAX as int, y: FP_MAX as int },
        p_max: Point2V { x: -(FP_MAX as int), y: -(FP_MAX as int) },
    }
}

pub open spec fn b2_inside(p: Point2V, b: Bounds2V) -> bool {
    b.p_min.x <= p.x <= b.p_max.x && b.p_min.y <= p.y <= b.p_max.y
}

pub open spec fn b2_union_pt(b: Bounds2V, p: Point2V) -> Bounds2V {
    Bounds2V {
        p_min: Point2V {
            x: if p.x < b.p_min.x { p.x } else { b.p_min.x },
            y: if p.y < b.p_min.y { p.y } else { b.p_min.y },
        },
        p_max: Point2V {
            x: if p.x > b.p_max.x { p.x } else { b.p_max.x },
            y: if p.y > b.p_max.y { p.y } else { b.p_max.y },
        },
    }
}

pub open spec fn b2_expand(b: Bounds2V, d: int) -> Bounds2V {
    Bounds2V {
        p_min: Point2V { x: fp_sub(b.p_min.x, d), y: fp_sub(b.p_min.y, d) },
        p_max: Point2V { x: fp_add(b.p_max.x, d), y: fp_add(b.p_max.y, d) },
    }
}

pub open spec fn b2_diagonal_len(b: Bounds2V) -> int {
    let dx = fp_sub(b.p_max.x, b.p_min.x);
    let dy = fp_sub(b.p_max.y, b.p_min.y);
    fp_sqrt(fp_add(fp_mul(dx, dx), fp_mul(dy, dy)))
}

impl Vec3 {
    pub fn add(self, b: Vec3) -> (r: Vec3)
        ensures
            r@ == v3_add(self@, b@),
    {
        Vec3 { x: add_fp(self.x, b.x), y: add_fp(self.y, b.y), z: add_fp(self.z, b.z) }
    }

    pub fn sub(self, b: Vec3) -> (r: Vec3)
        ensures
            r@ == v3_sub(self@, b@),
    {
        Vec3 { x: sub_fp(self.x, b.x), y: sub_fp(self.y, b.y), z: sub_fp(self.z, b.z) }
    }

    pub fn neg(self) -> (r: Vec3)
        ensures
            r@ == v3_neg(self@),
    {
        Vec3 { x: neg_fp(self.x), y: neg_fp(self.y), z: neg_fp(self.z) }
    }

    pub fn scale(self, s: i64) -> (r: Vec3)
        ensures
            r@ == v3_scale(self@, s as int),
    {
        Vec3 { x: mul_fp(self.x, s), y: mul_fp(self.y, s), z: mul_fp(self.z, s) }
    }

    pub fn dot(self, b: Vec3) -> (r: i64)
        ensures
            r as int == v3_dot(self@, b@),
    {
        add_fp(add_fp(mul_fp(self.x, b.x), mul_fp(self.y, b.y)), mul_fp(self.z, b.z))
    }

    pub fn length(self) -> (r: i64)
        ensures
            r as int == v3_len(self@),
    {
        sqrt_fp(self.dot(self))
    }

    pub fn normalize(self) -> (r: Vec3)
        ensures
            r@ == v3_normalize(self@),
    {
        let l = self.length();
        Vec3 { x: div_fp(self.x, l), y: div_fp(self.y, l), z: div_fp(self.z, l) }
    }

    pub fn faceforward(self, v: Vec3) -> (r: Vec3)
        ensures
            r@ == v3_faceforward(self@, v@),
    {
        if self.dot(v) < 0 {
            self.neg()
        } else {
            self
        }
    }
}

impl Ray {
    pub fn position(&self, t: i64) -> (r: Vec3)
        ensures
            r@ == ray_point(self@, t as int),
    {
        self.o.add(self.d.scale(t))
    }
}

pub fn lerp_fp(t: i64, a: i64, b: i64) -> (r: i64)
    ensures
        r as int == fp_lerp(t as int, a as int, b as int),
{
    add_fp(mul_fp(sub_fp(FP_ONE, t), a), mul_fp(t, b))
}

impl Bounds2 {
    /// The inverted rectangle used to start accumulating a point union.
    pub fn empty() -> (r: Bounds2)
        ensures
            r@ == b2_empty(),
    {
        Bounds2 {
            p_min: Point2 { x: FP_MAX, y: FP_MAX },
            p_max: Point2 { x: -FP_MAX, y: -FP_MAX },
        }
    }

    pub fn inside(&self, p: &Point2) -> (r: bool)
        ensures
            r == b2_inside(p@, self@),
    {
        self.p_min.x <= p.x && p.x <= self.p_max.x && self.p_min.y <= p.y && p.y <= self.p_max.y
    }

    pub fn union_pt(&self, p: &Point2) -> (r: Bounds2)
        ensures
            r@ == b2_union_pt(self@, p@),
    {
        Bounds2 {
            p_min: Point2 {
                x: if p.x < self.p_min.x { p.x } else { self.p_min.x },
                y: if p.y < self.p_min.y { p.y } else { self.p_min.y },
            },
            p_max: Point2 {
                x: if p.x > self.p_max.x { p.x } else { self.p_max.x },
                y: if p.y > self.p_max.y { p.y } else { self.p_max.y },
            },
        }
    }

    pub fn expand(&self, d: i64) -> (r: Bounds2)
        ensures
            r@ == b2_expand(self@, d as int),
    {
        Bounds2 {
            p_min: Point2 { x: sub_fp(self.p_min.x, d), y: sub_fp(self.p_min.y, d) },
            p_max: Point2 { x: add_fp(self.p_max.x, d), y: add_fp(self.p_max.y, d) },
        }
    }

    pub fn diagonal_length(&self) -> (r: i64)
        ensures
            r as int == b2_diagonal_len(self@),
    {
        let dx = sub_fp(self.p_max.x, self.p_min.x);
        let dy = sub_fp(self.p_max.y, self.p_min.y);
        sqrt_fp(add_fp(mul_fp(dx, dx), mul_fp(dy, dy)))
    }
}

} // verus!

//! Ray tracing through the lens element stack.
//!
//! Rays are given in camera space, where the film plane sits at `z == 0` and
//! the scene lies toward positive z. Internally the tracer works in lens
//! space — camera space with the z axis flipped — walks the element stack,
//! intersects each surface, rejects vignetted hits, refracts at each glass
//! interface, and flips the surviving ray back to camera space. Any failure
//! (a missed surface, a vignetted hit, total internal reflection, a ray that
//! moves away from the stop) yields no ray; it is never an error.

use vstd::prelude::*;

use crate::fixed::{
    add_fp, div_fp, fp_add, fp_div, fp_mul, fp_neg, fp_sqrt, fp_sub, mul_fp, neg_fp, sqrt_fp,
    sub_fp, FP_FOUR, FP_HALF, FP_ONE, FP_TWO,
};
use crate::geometry::{
    ray_point, v3_add, v3_dot, v3_faceforward, v3_neg, v3_normalize, v3_scale, v3_sub, Ray, RayV,
    Vec3, Vec3V,
};
use crate::lens::{lens_front_z_spec, LensElementV, RealisticCamera};

verus! {

pub open spec fn vec_opt_v(r: Option<Vec3>) -> Option<Vec3V> {
    match r {
        None => None,
        Some(v) => Some(v@),
    }
}

pub open spec fn ray_opt_v(r: Option<Ray>) -> Option<RayV> {
    match r {
        None => None,
        Some(v) => Some(v@),
    }
}

pub open spec fn pair_opt_v(r: Option<(i64, i64)>) -> Option<(int, int)> {
    match r {
        None => None,
        Some((x, y)) => Some((x as int, y as int)),
    }
}

pub open spec fn hit_opt_v(r: Option<(i64, Vec3)>) -> Option<(int, Vec3V)> {
    match r {
        None => None,
        Some((t, n)) => Some((t as int, n@)),
    }
}

/// The two solutions of `a t^2 + b t + c == 0`, in ascending order, computed
/// with the numerically stable split used throughout the renderer.
pub open spec fn quadratic_spec(a: int, b: int, c: int) -> Option<(int, int)> {
    let disc = fp_sub(fp_mul(b, b), fp_mul(fp_mul(FP_FOUR as int, a), c));
    if disc < 0 {
        None
    } else {
        let root = fp_sqrt(disc);
        let q = if b < 0 {
            fp_mul(-(FP_HALF as int), fp_sub(b, root))
        } else {
            fp_mul(-(FP_HALF as int), fp_add(b, root))
        };
        let t0 = fp_div(q, a);
        let t1 = fp_div(c, q);
        if t0 > t1 {
            Some((t1, t0))
        } else {
            Some((t0, t1))
        }
    }
}

pub fn quadratic(a: i64, b: i64, c: i64) -> (r: Option<(i64, i64)>)
    ensures
        pair_opt_v(r) == quadratic_spec(a as int, b as int, c as int),
{
    let disc = sub_fp(mul_fp(b, b), mul_fp(mul_fp(FP_FOUR, a), c));
    if disc < 0 {
        return None;
    }
    let root = sqrt_fp(disc);
    let q = if b < 0 {
        mul_fp(-FP_HALF, sub_fp(b, root))
    } else {
        mul_fp(-FP_HALF, add_fp(b, root))
    };
    let t0 = div_fp(q, a);
    let t1 = div_fp(c, q);
    if t0 > t1 {
        Some((t1, t0))
    } else {
        Some((t0, t1))
    }
}

/// Snell's-law refraction of `wi` (unit vector, pointing away from the
/// surface) about the normal `n`, for the index ratio `eta`. `None` means
/// total internal reflection.
pub open spec fn refract_spec(wi: Vec3V, n: Vec3V, eta: int) -> Option<Vec3V> {
    let cos_theta_i = v3_dot(n, wi);
    let s = fp_sub(FP_ONE as int, fp_mul(cos_theta_i, cos_theta_i));
    let sin2_theta_i = if s < 0 {
        0
    } else {
        s
    };
    let sin2_theta_t = fp_mul(fp_mul(eta, eta), sin2_theta_i);
    if sin2_theta_t >= FP_ONE as int {
        None
    } else {
        let cos_theta_t = fp_sqrt(fp_sub(FP_ONE as int, sin2_theta_t));
        Some(
            v3_add(
                v3_scale(v3_neg(wi), eta),
                v3_scale(n, fp_sub(fp_mul(eta, cos_theta_i), cos_theta_t)),
            ),
        )
    }
}

pub fn refract(wi: &Vec3, n: &Vec3, eta: i64) -> (r: Option<Vec3>)
    ensures
        vec_opt_v(r) == refract_spec(wi@, n@, eta as int),
{
    let cos_theta_i = n.dot(*wi);
    let s = sub_fp(FP_ONE, mul_fp(cos_theta_i, cos_theta_i));
    let sin2_theta_i: i64 = if s < 0 {
        0
    } else {
        s
    };
    let sin2_theta_t = mul_fp(mul_fp(eta, eta), sin2_theta_i);
    if sin2_theta_t >= FP_ONE {
        return None;
    }
    let cos_theta_t = sqrt_fp(sub_fp(FP_ONE, sin2_theta_t));
    Some(wi.neg().scale(eta).add(n.scale(sub_fp(mul_fp(eta, cos_theta_i), cos_theta_t))))
}

pub open spec fn isect_center_offset(z_center: int, r: RayV) -> Vec3V {
    v3_sub(r.o, Vec3V { x: 0, y: 0, z: z_center })
}

pub open spec fn isect_a(r: RayV) -> int {
    v3_dot(r.d, r.d)
}

pub open spec fn isect_b(z_center: int, r: RayV) -> int {
    fp_mul(FP_TWO as int, v3_dot(r.d, isect_center_offset(z_center, r)))
}

pub open spec fn isect_c(radius: int, z_center: int, r: RayV) -> int {
    let o = isect_center_offset(z_center, r);
    fp_sub(v3_dot(o, o), fp_mul(radius, radius))
}

/// The root-selection rule: take the nearer intersection exactly when the
/// ray's axial direction and the curvature sign disagree.
pub open spec fn use_closer_t(radius: int, r: RayV) -> bool {
    (r.d.z > 0) != (radius < 0)
}

/// Ray/sphere intersection for one optical surface: the sphere of signed
/// radius `radius` centered on the optical axis at `z_center`. Returns the
/// selected parameter `t` and the face-forward surface normal there.
pub open spec fn intersect_spec(radius: int, z_center: int, r: RayV) -> Option<(int, Vec3V)> {
    let o = isect_center_offset(z_center, r);
    match quadratic_spec(isect_a(r), isect_b(z_center, r), isect_c(radius, z_center, r)) {
        None => None,
        Some((t0, t1)) => {
            let t = if use_closer_t(radius, r) {
                if t0 < t1 {
                    t0
                } else {
                    t1
                }
            } else {
                if t0 > t1 {
                    t0
                } else {
                    t1
                }
            };
            if t < 0 {
                None
            } else {
                let n0 = v3_add(o, v3_scale(r.d, t));
                Some((t, v3_faceforward(v3_normalize(n0), v3_neg(r.d))))
            }
        },
    }
}

/// The hit point's squared radial distance stays within the element's
/// aperture; hits beyond it are vignetted away.
pub open spec fn within_aperture(e: LensElementV, p_hit: Vec3V) -> bool {
    fp_add(fp_mul(p_hit.x, p_hit.x), fp_mul(p_hit.y, p_hit.y)) <= fp_mul(
        e.aperture_radius,
        e.aperture_radius,
    )
}

pub open spec fn stop_normal() -> Vec3V {
    Vec3V { x: 0, y: 0, z: 0 }
}

/// Where (and whether) the lens-space ray meets element `i`, whose surface
/// vertex sits at axial position `element_z`. Film-to-scene direction: a ray
/// not moving toward the scene cannot reach the stop.
pub open spec fn film_element_hit(
    elems: Seq<LensElementV>,
    i: int,
    element_z: int,
    r: RayV,
) -> Option<(int, Vec3V)> {
    let e = elems[i];
    if e.curvature_radius == 0 {
        if r.d.z >= 0 {
            None
        } else {
            Some((fp_div(fp_sub(element_z, r.o.z), r.d.z), stop_normal()))
        }
    } else {
        intersect_spec(e.curvature_radius, fp_add(element_z, e.curvature_radius), r)
    }
}

/// Index ratio at element `i` for a ray walking film-to-scene: the outgoing
/// medium is the next element toward the scene (vacuum when absent or zero).
pub open spec fn film_eta_ratio(elems: Seq<LensElementV>, i: int) -> int {
    let eta_i = elems[i].eta;
    let eta_t = if i > 0 && elems[i - 1].eta != 0 {
        elems[i - 1].eta
    } else {
        FP_ONE as int
    };
    fp_div(eta_i, eta_t)
}

/// One element interaction of the film-to-scene walk.
#[verifier::opaque]
pub open spec fn film_step(elems: Seq<LensElementV>, i: int, element_z: int, r: RayV) -> Option<
    RayV,
> {
    match film_element_hit(elems, i, element_z, r) {
        None => None,
        Some((t, n)) => {
            let p_hit = ray_point(r, t);
            if !within_aperture(elems[i], p_hit) {
                None
            } else if elems[i].curvature_radius == 0 {
                Some(RayV { o: p_hit, d: r.d })
            } else {
                match refract_spec(v3_normalize(v3_neg(r.d)), n, film_eta_ratio(elems, i)) {
                    None => None,
                    Some(w) => Some(RayV { o: p_hit, d: w }),
                }
            }
        },
    }
}

/// The film-to-scene walk with `k` elements still ahead of the ray (element
/// `k - 1` is the next one), the axial accumulator standing at `element_z`.
pub open spec fn trace_film_rec(elems: Seq<LensElementV>, k: int, element_z: int, r: RayV) -> Option<
    RayV,
>
    decreases k,
{
    if k <= 0 {
        Some(r)
    } else {
        let z2 = fp_sub(element_z, elems[k - 1].thickness);
        match film_step(elems, k - 1, z2, r) {
            None => None,
            Some(r2) => trace_film_rec(elems, k - 1, z2, r2),
        }
    }
}

/// Camera space and lens space differ by a flip of the z axis.
pub open spec fn flip_z_ray(r: RayV) -> RayV {
    RayV {
        o: Vec3V { x: r.o.x, y: r.o.y, z: fp_neg(r.o.z) },
        d: Vec3V { x: r.d.x, y: r.d.y, z: fp_neg(r.d.z) },
    }
}

/// Full film-to-scene trace on camera-space rays.
pub open spec fn trace_from_film_spec(elems: Seq<LensElementV>, r_camera: RayV) -> Option<RayV> {
    match trace_film_rec(elems, elems.len() as int, 0, flip_z_ray(r_camera)) {
        None => None,
        Some(r) => Some(flip_z_ray(r)),
    }
}

/// Like `film_element_hit`, for the scene-to-film walk: the stop plane is met
/// wherever the axial direction takes the ray (the walk direction guard is
/// only needed on the film side).
pub open spec fn scene_element_hit(
    elems: Seq<LensElementV>,
    i: int,
    element_z: int,
    r: RayV,
) -> Option<(int, Vec3V)> {
    let e = elems[i];
    if e.curvature_radius == 0 {
        Some((fp_div(fp_sub(element_z, r.o.z), r.d.z), stop_normal()))
    } else {
        intersect_spec(e.curvature_radius, fp_add(element_z, e.curvature_radius), r)
    }
}

/// Index ratio at element `i` for a ray walking scene-to-film: the incoming
/// medium is the previous element (vacuum when first or zero), the outgoing
/// medium the element itself (vacuum when zero).
pub open spec fn scene_eta_ratio(elems: Seq<LensElementV>, i: int) -> int {
    let eta_i = if i == 0 || elems[i - 1].eta == 0 {
        FP_ONE as int
    } else {
        elems[i - 1].eta
    };
    let eta_t = if elems[i].eta != 0 {
        elems[i].eta
    } else {
        FP_ONE as int
    };
    fp_div(eta_i, eta_t)
}

/// One element interaction of the scene-to-film walk.
#[verifier::opaque]
pub open spec fn scene_step(elems: Seq<LensElementV>, i: int, element_z: int, r: RayV) -> Option<
    RayV,
> {
    match scene_element_hit(elems, i, element_z, r) {
        None => None,
        Some((t, n)) => {
            let p_hit = ray_point(r, t);
            if !within_aperture(elems[i], p_hit) {
                None
            } else if elems[i].curvature_radius == 0 {
                Some(RayV { o: p_hit, d: r.d })
            } else {
                match refract_spec(v3_normalize(v3_neg(r.d)), n, scene_eta_ratio(elems, i)) {
                    None => None,
                    Some(w) => Some(RayV { o: p_hit, d: w }),
                }
            }
        },
    }
}

/// The scene-to-film walk from element `i` on, the axial accumulator standing
/// at `element_z` (the vertex of element `i`).
pub open spec fn trace_scene_rec(elems: Seq<LensElementV>, i: int, element_z: int, r: RayV) -> Option<
    RayV,
>
    decreases elems.len() - i,
{
    if i >= elems.len() {
        Some(r)
    } else {
        match scene_step(elems, i, element_z, r) {
            None => None,
            Some(r2) => trace_scene_rec(elems, i + 1, fp_add(element_z, elems[i].thickness), r2),
        }
    }
}

/// Full scene-to-film trace on camera-space rays.
pub open spec fn trace_from_scene_spec(elems: Seq<LensElementV>, r_camera: RayV) -> Option<RayV> {
    match trace_scene_rec(elems, 0, fp_neg(lens_front_z_spec(elems)), flip_z_ray(r_camera)) {
        None => None,
        Some(r) => Some(flip_z_ray(r)),
    }
}

fn flip_z(r: &Ray) -> (out: Ray)
    ensures
        out@ == flip_z_ray(r@),
{
    Ray {
        o: Vec3 { x: r.o.x, y: r.o.y, z: neg_fp(r.o.z) },
        d: Vec3 { x: r.d.x, y: r.d.y, z: neg_fp(r.d.z) },
    }
}

impl RealisticCamera {
    /// Ray/sphere intersection and root selection for one optical surface.
    pub fn intersect_spherical_element(&self, radius: i64, z_center: i64, ray: &Ray) -> (r: Option<
        (i64, Vec3),
    >)
        ensures
            hit_opt_v(r) == intersect_spec(radius as int, z_center as int, ray@),
    {
        let o = ray.o.sub(Vec3 { x: 0, y: 0, z: z_center });
        let a = ray.d.dot(ray.d);
        let b = mul_fp(FP_TWO, ray.d.dot(o));
        let c = sub_fp(o.dot(o), mul_fp(radius, radius));
        match quadratic(a, b, c) {
            None => None,
            Some((t0, t1)) => {
                let use_closer = (ray.d.z > 0) != (radius < 0);
                let t = if use_closer {
                    if t0 < t1 {
                        t0
                    } else {
                        t1
                    }
                } else {
                    if t0 > t1 {
                        t0
                    } else {
                        t1
                    }
                };
                if t < 0 {
                    return None;
                }
                let n0 = o.add(ray.d.scale(t));
                Some((t, n0.normalize().faceforward(ray.d.neg())))
            },
        }
    }

    /// One element interaction of the film-to-scene walk, on the lens-space
    /// ray `r`, with the element's vertex at `element_z`.
    fn trace_element_from_film(&self, i: usize, element_z: i64, r: &Ray) -> (out: Option<Ray>)
        requires
            i < self@.elements.len(),
        ensures
            ray_opt_v(out) == film_step(self@.elements, i as int, element_z as int, r@),
    {
        proof {
            reveal(film_step);
        }
        let e = self.element_interfaces[i];
        let is_stop = e.curvature_radius == 0;
        let hit: (i64, Vec3);
        if is_stop {
            if r.d.z >= 0 {
                return None;
            }
            hit = (div_fp(sub_fp(element_z, r.o.z), r.d.z), Vec3 { x: 0, y: 0, z: 0 });
        } else {
            match self.intersect_spherical_element(
                e.curvature_radius,
                add_fp(element_z, e.curvature_radius),
                r,
            ) {
                None => {
                    return None;
                },
                Some(h) => {
                    hit = h;
                },
            }
        }
        let (t, n) = hit;
        let p_hit = r.position(t);
        let r2 = add_fp(mul_fp(p_hit.x, p_hit.x), mul_fp(p_hit.y, p_hit.y));
        if r2 > mul_fp(e.aperture_radius, e.aperture_radius) {
            return None;
        }
        if is_stop {
            return Some(Ray { o: p_hit, d: r.d });
        }
        let eta_i = e.eta;
        let eta_t: i64 = if i > 0 && self.element_interfaces[i - 1].eta != 0 {
            self.element_interfaces[i - 1].eta
        } else {
            FP_ONE
        };
        match refract(&r.d.neg().normalize(), &n, div_fp(eta_i, eta_t)) {
            None => None,
            Some(w) => Some(Ray { o: p_hit, d: w }),
        }
    }

    /// Traces a camera-space ray from the film side out toward the scene.
    /// `None` reports a ray the lens system does not pass (vignetting, total
    /// internal reflection, a ray moving away from the stop).
    #[verifier::rlimit(60)]
    pub fn trace_lenses_from_film(&self, r_camera: &Ray) -> (r: Option<Ray>)
        ensures
            ray_opt_v(r) == trace_from_film_spec(self@.elements, r_camera@),
    {
        let ghost elems = self@.elements;
        let n: usize = self.element_interfaces.len();
        let mut element_z: i64 = 0;
        let mut r_lens: Ray = flip_z(r_camera);
        let ghost whole = trace_film_rec(elems, n as int, 0, r_lens@);
        let mut idx: usize = 0;
        while idx < n
            invariant
                n == elems.len(),
                elems == self@.elements,
                idx <= n,
                whole == trace_film_rec(elems, n as int, 0, flip_z_ray(r_camera@)),
                trace_film_rec(elems, (n - idx) as int, element_z as int, r_lens@) == whole,
            decreases n - idx,
        {
            let i: usize = n - 1 - idx;
            let ghost k = (n - idx) as int;
            let ghost r_in = r_lens@;
            let ghost z_in = element_z as int;
            element_z = sub_fp(element_z, self.element_interfaces[i].thickness);
            match self.trace_element_from_film(i, element_z, &r_lens) {
                None => {
                    proof {
                        assert(trace_film_rec(elems, k, z_in, r_in) == None::<RayV>);
                    }
                    return None;
                },
                Some(r2) => {
                    r_lens = r2;
                },
            }
            proof {
                assert(trace_film_rec(elems, k, z_in, r_in) == trace_film_rec(
                    elems,
                    k - 1,
                    element_z as int,
                    r_lens@,
                ));
            }
            idx = idx + 1;
        }
        Some(flip_z(&r_lens))
    }

    /// One element interaction of the scene-to-film walk.
    fn trace_element_from_scene(&self, i: usize, element_z: i64, r: &Ray) -> (out: Option<Ray>)
        requires
            i < self@.elements.len(),
        ensures
            ray_opt_v(out) == scene_step(self@.elements, i as int, element_z as int, r@),
    {
        proof {
            reveal(scene_step);
        }
        let e = self.element_interfaces[i];
        let is_stop = e.curvature_radius == 0;
        let hit: (i64, Vec3);
        if is_stop {
            hit = (div_fp(sub_fp(element_z, r.o.z), r.d.z), Vec3 { x: 0, y: 0, z: 0 });
        } else {
            match self.intersect_spherical_element(
                e.curvature_radius,
                add_fp(element_z, e.curvature_radius),
                r,
            ) {
                None => {
                    return None;
                },
                Some(h) => {
                    hit = h;
                },
            }
        }
        let (t, n) = hit;
        let p_hit = r.position(t);
        let r2 = add_fp(mul_fp(p_hit.x, p_hit.x), mul_fp(p_hit.y, p_hit.y));
        if r2 > mul_fp(e.aperture_radius, e.aperture_radius) {
            return None;
        }
        if is_stop {
            return Some(Ray { o: p_hit, d: r.d });
        }
        let eta_i: i64 = if i == 0 || self.element_interfaces[i - 1].eta == 0 {
            FP_ONE
        } else {
            self.element_interfaces[i - 1].eta
        };
        let eta_t: i64 = if self.element_interfaces[i].eta != 0 {
            self.element_interfaces[i].eta
        } else {
            FP_ONE
        };
        match refract(&r.d.neg().normalize(), &n, div_fp(eta_i, eta_t)) {
            None => None,
            Some(w) => Some(Ray { o: p_hit, d: w }),
        }
    }

    /// Traces a camera-space ray from the scene side in toward the film.
    #[verifier::rlimit(60)]
    pub fn trace_lenses_from_scene(&self, r_camera: &Ray) -> (r: Option<Ray>)
        ensures
            ray_opt_v(r) == trace_from_scene_spec(self@.elements, r_camera@),
    {
        let ghost elems = self@.elements;
        let n: usize = self.element_interfaces.len();
        let mut element_z: i64 = neg_fp(self.lens_front_z());
        let mut r_lens: Ray = flip_z(r_camera);
        let ghost whole = trace_scene_rec(elems, 0, element_z as int, r_lens@);
        let mut i: usize = 0;
        while i < n
            invariant
                n == elems.len(),
                elems == self@.elements,
                i <= n,
                whole == trace_scene_rec(
                    elems,
                    0,
                    fp_neg(lens_front_z_spec(elems)),
                    flip_z_ray(r_camera@),
                ),
                trace_scene_rec(elems, i as int, element_z as int, r_lens@) == whole,
            decreases n - i,
        {
            let ghost r_in = r_lens@;
            let ghost z_in = element_z as int;
            match self.trace_element_from_scene(i, element_z, &r_lens) {
                None => {
                    proof {
                        assert(trace_scene_rec(elems, i as int, z_in, r_in) == None::<RayV>);
                    }
                    return None;
                },
                Some(r2) => {
                    r_lens = r2;
                },
            }
            element_z = add_fp(element_z, self.element_interfaces[i].thickness);
            proof {
                assert(trace_scene_rec(elems, i as int, z_in, r_in) == trace_scene_rec(
                    elems,
                    i as int + 1,
                    element_z as int,
                    r_lens@,
                ));
            }
            i = i + 1;
        }
        Some(flip_z(&r_lens))
    }
}

} // verus!

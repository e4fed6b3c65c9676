//! Laws of the tracer, stated and proved once for all inputs: root
//! selection, determinism, vignetting, and the mirror symmetry that makes
//! the exit pupil a function of the film radius alone.

use vstd::prelude::*;

use crate::fixed::{
    fp_in_range, fp_neg, lemma_fp_add_odd, lemma_fp_div_odd_left, lemma_fp_mul_odd_both,
    lemma_fp_mul_odd_left, lemma_fp_sub_odd,
};
use crate::geometry::{
    ray_in_range, ray_point, v3_add, v3_dot, v3_faceforward, v3_in_range, v3_len, v3_neg,
    v3_normalize, v3_scale, v3_sub, Ray, RayV, Vec3V,
};
use crate::lens::LensElementV;
use crate::trace::{
    film_element_hit, film_eta_ratio, film_step, flip_z_ray, intersect_spec, isect_a, isect_b,
    isect_c, isect_center_offset, quadratic_spec, ray_opt_v, refract_spec, scene_element_hit,
    scene_step, stop_normal, trace_film_rec, trace_from_film_spec, trace_from_scene_spec,
    use_closer_t, within_aperture,
};

verus! {

// --- Root selection -------------------------------------------------------

/// A successful spherical intersection selects its parameter by the
/// direction/curvature-sign rule — the nearer quadratic root exactly when
/// the ray's axial direction and the curvature sign disagree, the farther
/// one otherwise — and never selects a parameter behind the ray origin.
pub proof fn lemma_intersect_root_selection(
    radius: int,
    z_center: int,
    r: RayV,
    t: int,
    n: Vec3V,
)
    requires
        intersect_spec(radius, z_center, r) == Some((t, n)),
    ensures
        t >= 0,
        quadratic_spec(isect_a(r), isect_b(z_center, r), isect_c(radius, z_center, r)) is Some,
        quadratic_spec(isect_a(r), isect_b(z_center, r), isect_c(radius, z_center, r))
            matches Some(roots) ==> t == if use_closer_t(radius, r) {
            if roots.0 < roots.1 {
                roots.0
            } else {
                roots.1
            }
        } else {
            if roots.0 > roots.1 {
                roots.0
            } else {
                roots.1
            }
        },
{
}

// --- Determinism ----------------------------------------------------------

/// Tracing from the film is deterministic: two results obtained for the
/// same prescription and the same camera-space ray agree, both in whether
/// a ray is produced and in the ray itself.
pub proof fn lemma_trace_from_film_deterministic(
    elems: Seq<LensElementV>,
    r_camera: RayV,
    out1: Option<Ray>,
    out2: Option<Ray>,
)
    requires
        ray_opt_v(out1) == trace_from_film_spec(elems, r_camera),
        ray_opt_v(out2) == trace_from_film_spec(elems, r_camera),
    ensures
        out1 is Some <==> out2 is Some,
        out1 == out2,
{
    match (out1, out2) {
        (Some(a), Some(b)) => {
            assert(a@ == b@);
            assert(a.o.x == b.o.x && a.o.y == b.o.y && a.o.z == b.o.z);
            assert(a.d.x == b.d.x && a.d.y == b.d.y && a.d.z == b.d.z);
        },
        _ => {},
    }
}

/// Tracing from the scene is deterministic in the same sense.
pub proof fn lemma_trace_from_scene_deterministic(
    elems: Seq<LensElementV>,
    r_camera: RayV,
    out1: Option<Ray>,
    out2: Option<Ray>,
)
    requires
        ray_opt_v(out1) == trace_from_scene_spec(elems, r_camera),
        ray_opt_v(out2) == trace_from_scene_spec(elems, r_camera),
    ensures
        out1 is Some <==> out2 is Some,
        out1 == out2,
{
    match (out1, out2) {
        (Some(a), Some(b)) => {
            assert(a@ == b@);
            assert(a.o.x == b.o.x && a.o.y == b.o.y && a.o.z == b.o.z);
            assert(a.d.x == b.d.x && a.d.y == b.d.y && a.d.z == b.d.z);
        },
        _ => {},
    }
}

// --- Vignetting -----------------------------------------------------------

/// A hit point outside the element's aperture radius is always rejected on
/// the film-to-scene walk, whatever the element's curvature (the hit may
/// come from the stop plane or from a spherical surface alike).
pub proof fn lemma_film_vignetting(
    elems: Seq<LensElementV>,
    i: int,
    element_z: int,
    r: RayV,
    t: int,
    n: Vec3V,
)
    requires
        film_element_hit(elems, i, element_z, r) == Some((t, n)),
        !within_aperture(elems[i], ray_point(r, t)),
    ensures
        film_step(elems, i, element_z, r) is None,
{
    reveal(film_step);
}

/// The same rejection on the scene-to-film walk.
pub proof fn lemma_scene_vignetting(
    elems: Seq<LensElementV>,
    i: int,
    element_z: int,
    r: RayV,
    t: int,
    n: Vec3V,
)
    requires
        scene_element_hit(elems, i, element_z, r) == Some((t, n)),
        !within_aperture(elems[i], ray_point(r, t)),
    ensures
        scene_step(elems, i, element_z, r) is None,
{
    reveal(scene_step);
}

// --- Mirror symmetry about the meridional plane ---------------------------

/// Reflection about the y-z (meridional) plane: x components negate.
pub open spec fn mirror_v3(v: Vec3V) -> Vec3V {
    Vec3V { x: fp_neg(v.x), y: v.y, z: v.z }
}

pub open spec fn mirror_ray(r: RayV) -> RayV {
    RayV { o: mirror_v3(r.o), d: mirror_v3(r.d) }
}

pub open spec fn mirror_ray_opt(r: Option<RayV>) -> Option<RayV> {
    match r {
        None => None,
        Some(v) => Some(mirror_ray(v)),
    }
}

proof fn lemma_v3_dot_mirror(a: Vec3V, b: Vec3V)
    requires
        fp_in_range(a.x),
        fp_in_range(b.x),
    ensures
        v3_dot(mirror_v3(a), mirror_v3(b)) == v3_dot(a, b),
{
    lemma_fp_mul_odd_both(a.x, b.x);
}

proof fn lemma_v3_add_mirror(a: Vec3V, b: Vec3V)
    requires
        fp_in_range(a.x),
        fp_in_range(b.x),
    ensures
        v3_add(mirror_v3(a), mirror_v3(b)) == mirror_v3(v3_add(a, b)),
{
    lemma_fp_add_odd(a.x, b.x);
}

proof fn lemma_v3_sub_mirror(a: Vec3V, b: Vec3V)
    requires
        fp_in_range(a.x),
        fp_in_range(b.x),
    ensures
        v3_sub(mirror_v3(a), mirror_v3(b)) == mirror_v3(v3_sub(a, b)),
{
    lemma_fp_sub_odd(a.x, b.x);
}

proof fn lemma_v3_scale_mirror(a: Vec3V, s: int)
    requires
        fp_in_range(a.x),
    ensures
        v3_scale(mirror_v3(a), s) == mirror_v3(v3_scale(a, s)),
{
    lemma_fp_mul_odd_left(a.x, s);
}

proof fn lemma_v3_neg_mirror(a: Vec3V)
    ensures
        v3_neg(mirror_v3(a)) == mirror_v3(v3_neg(a)),
{
}

proof fn lemma_v3_normalize_mirror(a: Vec3V)
    requires
        fp_in_range(a.x),
    ensures
        v3_normalize(mirror_v3(a)) == mirror_v3(v3_normalize(a)),
{
    lemma_v3_dot_mirror(a, a);
    assert(v3_len(mirror_v3(a)) == v3_len(a));
    lemma_fp_div_odd_left(a.x, v3_len(a));
}

proof fn lemma_v3_faceforward_mirror(n: Vec3V, v: Vec3V)
    requires
        fp_in_range(n.x),
        fp_in_range(v.x),
    ensures
        v3_faceforward(mirror_v3(n), mirror_v3(v)) == mirror_v3(v3_faceforward(n, v)),
{
    lemma_v3_dot_mirror(n, v);
    lemma_v3_neg_mirror(n);
}

proof fn lemma_refract_mirror(wi: Vec3V, n: Vec3V, eta: int)
    requires
        fp_in_range(wi.x),
        fp_in_range(n.x),
    ensures
        refract_spec(mirror_v3(wi), mirror_v3(n), eta) == match refract_spec(wi, n, eta) {
            None => None::<Vec3V>,
            Some(w) => Some(mirror_v3(w)),
        },
{
    lemma_v3_dot_mirror(n, wi);
    lemma_v3_neg_mirror(wi);
    lemma_v3_scale_mirror(v3_neg(wi), eta);
    lemma_v3_scale_mirror(n, refract_normal_coeff(wi, n, eta));
    let a = v3_scale(v3_neg(wi), eta);
    let b = v3_scale(n, refract_normal_coeff(wi, n, eta));
    lemma_v3_add_mirror(a, b);
}

/// The normal-weighting coefficient of the refraction formula.
spec fn refract_normal_coeff(wi: Vec3V, n: Vec3V, eta: int) -> int {
    let cos_theta_i = v3_dot(n, wi);
    let s = crate::fixed::fp_sub(crate::fixed::FP_ONE as int, crate::fixed::fp_mul(cos_theta_i, cos_theta_i));
    let sin2_theta_i = if s < 0 {
        0
    } else {
        s
    };
    let sin2_theta_t = crate::fixed::fp_mul(crate::fixed::fp_mul(eta, eta), sin2_theta_i);
    crate::fixed::fp_sub(
        crate::fixed::fp_mul(eta, cos_theta_i),
        crate::fixed::fp_sqrt(crate::fixed::fp_sub(crate::fixed::FP_ONE as int, sin2_theta_t)),
    )
}

proof fn lemma_intersect_mirror(radius: int, z_center: int, r: RayV)
    requires
        ray_in_range(r),
    ensures
        intersect_spec(radius, z_center, mirror_ray(r)) == match intersect_spec(
            radius,
            z_center,
            r,
        ) {
            None => None::<(int, Vec3V)>,
            Some((t, n)) => Some((t, mirror_v3(n))),
        },
{
    let c = Vec3V { x: 0, y: 0, z: z_center };
    let o = isect_center_offset(z_center, r);
    lemma_v3_sub_mirror(r.o, c);
    assert(mirror_v3(c) == c);
    assert(isect_center_offset(z_center, mirror_ray(r)) == mirror_v3(o));
    lemma_v3_dot_mirror(r.d, r.d);
    lemma_v3_dot_mirror(r.d, o);
    lemma_v3_dot_mirror(o, o);
    assert(isect_a(mirror_ray(r)) == isect_a(r));
    assert(isect_b(z_center, mirror_ray(r)) == isect_b(z_center, r));
    assert(isect_c(radius, z_center, mirror_ray(r)) == isect_c(radius, z_center, r));
    match quadratic_spec(isect_a(r), isect_b(z_center, r), isect_c(radius, z_center, r)) {
        None => {},
        Some((t0, t1)) => {
            let t = if use_closer_t(radius, r) {
                if t0 < t1 {
                    t0
                } else {
                    t1
                }
            } else {
                if t0 > t1 {
                    t0
                } else {
                    t1
                }
            };
            if t >= 0 {
                lemma_v3_scale_mirror(r.d, t);
                lemma_v3_add_mirror(o, v3_scale(r.d, t));
                let n0 = v3_add(o, v3_scale(r.d, t));
                lemma_v3_normalize_mirror(n0);
                lemma_v3_neg_mirror(r.d);
                lemma_v3_faceforward_mirror(v3_normalize(n0), v3_neg(r.d));
            }
        },
    }
}

proof fn lemma_film_step_mirror(elems: Seq<LensElementV>, i: int, element_z: int, r: RayV)
    requires
        ray_in_range(r),
    ensures
        film_step(elems, i, element_z, mirror_ray(r)) == mirror_ray_opt(
            film_step(elems, i, element_z, r),
        ),
{
    reveal(film_step);
    let e = elems[i];
    let hit = film_element_hit(elems, i, element_z, r);
    if e.curvature_radius == 0 {
        assert(mirror_v3(stop_normal()) == stop_normal());
    } else {
        lemma_intersect_mirror(e.curvature_radius, crate::fixed::fp_add(element_z, e.curvature_radius), r);
    }
    match hit {
        None => {},
        Some((t, n)) => {
            lemma_v3_scale_mirror(r.d, t);
            lemma_v3_add_mirror(r.o, v3_scale(r.d, t));
            let p_hit = ray_point(r, t);
            lemma_fp_mul_odd_both(p_hit.x, p_hit.x);
            assert(within_aperture(e, ray_point(mirror_ray(r), t)) == within_aperture(e, p_hit));
            if within_aperture(e, p_hit) && e.curvature_radius != 0 {
                lemma_v3_neg_mirror(r.d);
                lemma_v3_normalize_mirror(v3_neg(r.d));
                let n_mirror_side = match film_element_hit(elems, i, element_z, mirror_ray(r)) {
                    Some((_t2, n2)) => n2,
                    None => stop_normal(),
                };
                assert(n_mirror_side == mirror_v3(n));
                lemma_refract_mirror(v3_normalize(v3_neg(r.d)), n, film_eta_ratio(elems, i));
            }
        },
    }
}

proof fn lemma_film_step_in_range(elems: Seq<LensElementV>, i: int, element_z: int, r: RayV)
    requires
        ray_in_range(r),
    ensures
        film_step(elems, i, element_z, r) matches Some(r2) ==> ray_in_range(r2),
{
    reveal(film_step);
}

proof fn lemma_trace_film_rec_mirror(elems: Seq<LensElementV>, k: int, element_z: int, r: RayV)
    requires
        ray_in_range(r),
    ensures
        trace_film_rec(elems, k, element_z, mirror_ray(r)) == mirror_ray_opt(
            trace_film_rec(elems, k, element_z, r),
        ),
    decreases k,
{
    if k > 0 {
        let z2 = crate::fixed::fp_sub(element_z, elems[k - 1].thickness);
        lemma_film_step_mirror(elems, k - 1, z2, r);
        lemma_film_step_in_range(elems, k - 1, z2, r);
        match film_step(elems, k - 1, z2, r) {
            None => {},
            Some(r2) => {
                lemma_trace_film_rec_mirror(elems, k - 1, z2, r2);
            },
        }
    }
}

/// Meridional mirror symmetry of the film-side trace: reflecting a
/// camera-space ray about the y-z plane (the film sample about the optical
/// axis, together with its rear-element aim point) preserves whether the
/// ray traverses the lens system, and mirrors the produced ray. This is the
/// symmetry by which the exit pupil depends on the film radius alone.
pub proof fn lemma_trace_from_film_mirror(elems: Seq<LensElementV>, r_camera: RayV)
    requires
        ray_in_range(r_camera),
    ensures
        trace_from_film_spec(elems, mirror_ray(r_camera)) == mirror_ray_opt(
            trace_from_film_spec(elems, r_camera),
        ),
{
    let flipped = flip_z_ray(r_camera);
    assert(flip_z_ray(mirror_ray(r_camera)) == mirror_ray(flipped));
    assert(ray_in_range(flipped));
    lemma_trace_film_rec_mirror(elems, elems.len() as int, 0, flipped);
    match trace_film_rec(elems, elems.len() as int, 0, flipped) {
        None => {},
        Some(r_out) => {
            assert(flip_z_ray(mirror_ray(r_out)) == mirror_ray(flip_z_ray(r_out)));
        },
    }
}

/// The same symmetry phrased for an exit-pupil probe: a probe from the
/// mirrored film point toward the mirrored rear aim point exits the lens
/// system exactly when the original probe does.
pub proof fn lemma_exit_probe_mirror(elems: Seq<LensElementV>, p_film: Vec3V, p_rear: Vec3V)
    requires
        v3_in_range(p_film),
        v3_in_range(p_rear),
    ensures
        trace_from_film_spec(
            elems,
            RayV { o: mirror_v3(p_film), d: v3_sub(mirror_v3(p_rear), mirror_v3(p_film)) },
        ) is Some <==> trace_from_film_spec(
            elems,
            RayV { o: p_film, d: v3_sub(p_rear, p_film) },
        ) is Some,
{
    lemma_v3_sub_mirror(p_rear, p_film);
    let probe = RayV { o: p_film, d: v3_sub(p_rear, p_film) };
    assert(RayV { o: mirror_v3(p_film), d: v3_sub(mirror_v3(p_rear), mirror_v3(p_film)) }
        == mirror_ray(probe));
    assert(ray_in_range(probe));
    lemma_trace_from_film_mirror(elems, probe);
}

} // verus!

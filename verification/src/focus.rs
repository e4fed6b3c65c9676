//! Autofocus: cardinal points, the closed-form thick-lens focus estimate,
//! the achieved focus distance of a film position, and the bisection that
//! fixes the film-to-rear-element distance at construction time.

use vstd::prelude::*;

use crate::fixed::{
    add_fp, div_fp, fp_add, fp_div, fp_mul, fp_neg, fp_sqrt, fp_sub, mul_fp, neg_fp, sqrt_fp,
    sub_fp, FP_FOUR, FP_HALF, FP_MAX, FP_MILLI, FP_ONE,
};
use crate::geometry::{ray_point, Ray, RayV, Vec3, Vec3V};
use crate::lens::{
    build_element_interfaces, clamped_records, elements_of, lens_front_z_spec, lens_rear_z_spec,
    prescription_malformed, rear_element_radius_spec, LensElementV, LensError, RealisticCamera,
};
use crate::trace::{trace_from_film_spec, trace_from_scene_spec};

verus! {

/// Bracket expansion factor, 1.005.
pub const FP_EXPAND: i64 = 1_005_000_000;

/// Probe offsets tried at the rear element, as fractions of its radius:
/// 0.1, then 0.01, then 0.001 for very small apertures.
pub const PROBE_SCALE_COARSE: i64 = 100_000_000;

pub const PROBE_SCALE_MID: i64 = 10_000_000;

pub const PROBE_SCALE_FINE: i64 = 1_000_000;

/// Iteration cap for each bracket-expansion direction.
pub const BRACKET_ITERS: usize = 64;

/// Fixed number of bisection steps.
pub const BISECT_ITERS: usize = 20;

pub open spec fn res_i64_v(r: Result<i64, LensError>) -> Result<int, LensError> {
    match r {
        Ok(v) => Ok(v as int),
        Err(e) => Err(e),
    }
}

/// Cardinal points of an incoming/outgoing ray pair: the principal plane is
/// where a line at the incoming ray's transverse height meets the outgoing
/// ray; the focal point is where the outgoing ray crosses the optical axis.
/// Returns `(principal_plane_z, focal_point_z)` in camera coordinates.
pub open spec fn cardinal_points_spec(r_in: RayV, r_out: RayV) -> (int, int) {
    let tf = fp_div(fp_neg(r_out.o.x), r_out.d.x);
    let fz = fp_neg(ray_point(r_out, tf).z);
    let tp = fp_div(fp_sub(r_in.o.x, r_out.o.x), r_out.d.x);
    let pz = fp_neg(ray_point(r_out, tp).z);
    (pz, fz)
}

/// The axis-parallel probe ray on the scene side, at a small height
/// proportional to the film diagonal, aimed at the film.
pub open spec fn scene_side_probe(elems: Seq<LensElementV>, film_diagonal: int) -> RayV {
    let x = fp_mul(FP_MILLI as int, film_diagonal);
    RayV {
        o: Vec3V { x: x, y: 0, z: fp_add(lens_front_z_spec(elems), FP_ONE as int) },
        d: Vec3V { x: 0, y: 0, z: -(FP_ONE as int) },
    }
}

/// The symmetric probe on the film side, aimed at the scene.
pub open spec fn film_side_probe(elems: Seq<LensElementV>, film_diagonal: int) -> RayV {
    let x = fp_mul(FP_MILLI as int, film_diagonal);
    RayV {
        o: Vec3V { x: x, y: 0, z: fp_sub(lens_rear_z_spec(elems), FP_ONE as int) },
        d: Vec3V { x: 0, y: 0, z: FP_ONE as int },
    }
}

/// The thick-lens approximation: principal planes `(pz0, pz1)` and focal
/// points `(fz0, fz1)` from the two calibration probes, film side first.
/// `None` when a probe cannot traverse the stack (an aperture too small),
/// which is a fatal configuration error.
#[verifier::opaque]
pub open spec fn thick_lens_spec(elems: Seq<LensElementV>, film_diagonal: int) -> Option<
    ((int, int), (int, int)),
> {
    let r_scene = scene_side_probe(elems, film_diagonal);
    match trace_from_scene_spec(elems, r_scene) {
        None => None,
        Some(r_film) => {
            let film_side = cardinal_points_spec(r_scene, r_film);
            let r_film2 = film_side_probe(elems, film_diagonal);
            match trace_from_film_spec(elems, r_film2) {
                None => None,
                Some(r_scene2) => {
                    let scene_side = cardinal_points_spec(r_film2, r_scene2);
                    Some(((film_side.0, scene_side.0), (film_side.1, scene_side.1)))
                },
            }
        },
    }
}

/// Discriminant-like coefficient of the closed-form thick-lens imaging
/// equation; focusing is possible exactly when it is positive.
pub open spec fn focus_c(pz: (int, int), fz: (int, int), focus_distance: int) -> int {
    let f = fp_sub(fz.0, pz.0);
    let z = fp_neg(focus_distance);
    fp_mul(
        fp_sub(fp_sub(pz.1, z), pz.0),
        fp_sub(fp_sub(fp_sub(pz.1, z), fp_mul(FP_FOUR as int, f)), pz.0),
    )
}

/// Closed-form film distance that focuses the stack at `focus_distance`.
pub open spec fn focus_thick_lens_spec(
    elems: Seq<LensElementV>,
    film_diagonal: int,
    focus_distance: int,
) -> Result<int, LensError> {
    match thick_lens_spec(elems, film_diagonal) {
        None => Err(LensError::CalibrationRayBlocked),
        Some((pz, fz)) => {
            let c = focus_c(pz, fz, focus_distance);
            if c <= 0 {
                Err(LensError::FocusDistanceTooShort)
            } else {
                let z = fp_neg(focus_distance);
                let delta = fp_mul(
                    FP_HALF as int,
                    fp_sub(fp_add(fp_sub(pz.1, z), pz.0), fp_sqrt(c)),
                );
                Ok(fp_add(elems.last().thickness, delta))
            }
        },
    }
}

/// Axial position where a camera-space ray crosses the optical axis;
/// saturated (standing for infinity) when it crosses behind the camera.
pub open spec fn axis_cross_z(r: RayV) -> int {
    let tf = fp_div(fp_neg(r.o.x), r.d.x);
    let z = ray_point(r, tf).z;
    if z < 0 {
        FP_MAX as int
    } else {
        z
    }
}

/// The film-side probe at offset `scale * rear_element_radius`, fired from
/// the film axis toward the rear element at the given film distance.
pub open spec fn focus_probe(elems: Seq<LensElementV>, film_dist: int, scale: int) -> RayV {
    let lu = fp_mul(scale, rear_element_radius_spec(elems));
    RayV {
        o: Vec3V { x: 0, y: 0, z: fp_sub(lens_rear_z_spec(elems), film_dist) },
        d: Vec3V { x: lu, y: 0, z: film_dist },
    }
}

/// Focus distance achieved by a film position: where the traced probe ray
/// crosses the axis. Probes at decreasing offsets; if none traverses the
/// stack the lens diverges, reported as the saturated value.
#[verifier::opaque]
pub open spec fn focus_distance_spec(elems: Seq<LensElementV>, film_dist: int) -> int {
    match trace_from_film_spec(elems, focus_probe(elems, film_dist, PROBE_SCALE_COARSE as int)) {
        Some(r) => axis_cross_z(r),
        None => match trace_from_film_spec(
            elems,
            focus_probe(elems, film_dist, PROBE_SCALE_MID as int),
        ) {
            Some(r) => axis_cross_z(r),
            None => match trace_from_film_spec(
                elems,
                focus_probe(elems, film_dist, PROBE_SCALE_FINE as int),
            ) {
                Some(r) => axis_cross_z(r),
                None => FP_MAX as int,
            },
        },
    }
}

/// Scales `lower` up by the expansion factor until the achieved focus
/// distance no longer exceeds the target, for at most `k` steps.
pub open spec fn expand_lower_rec(
    elems: Seq<LensElementV>,
    target: int,
    lower: int,
    k: int,
) -> int
    decreases k,
{
    if k <= 0 {
        lower
    } else if focus_distance_spec(elems, lower) > target {
        expand_lower_rec(elems, target, fp_mul(lower, FP_EXPAND as int), k - 1)
    } else {
        lower
    }
}

/// Scales `upper` down until the achieved focus distance no longer falls
/// short of the target, for at most `k` steps.
pub open spec fn expand_upper_rec(
    elems: Seq<LensElementV>,
    target: int,
    upper: int,
    k: int,
) -> int
    decreases k,
{
    if k <= 0 {
        upper
    } else if focus_distance_spec(elems, upper) < target {
        expand_upper_rec(elems, target, fp_div(upper, FP_EXPAND as int), k - 1)
    } else {
        upper
    }
}

/// `k` bisection steps on the bracket, keeping the target focus distance
/// between the achieved focus distances of the two ends.
pub open spec fn bisect_rec(elems: Seq<LensElementV>, target: int, lo: int, up: int, k: int) -> (
    int,
    int,
)
    decreases k,
{
    if k <= 0 {
        (lo, up)
    } else {
        let mid = fp_mul(FP_HALF as int, fp_add(lo, up));
        if focus_distance_spec(elems, mid) < target {
            bisect_rec(elems, target, mid, up, k - 1)
        } else {
            bisect_rec(elems, target, lo, mid, k - 1)
        }
    }
}

/// The whole autofocus search: closed-form seed, bracket expansion, bisection.
pub open spec fn focus_binary_search_spec(
    elems: Seq<LensElementV>,
    film_diagonal: int,
    focus_distance: int,
) -> Result<int, LensError> {
    match focus_thick_lens_spec(elems, film_diagonal, focus_distance) {
        Err(e) => Err(e),
        Ok(seed) => {
            let lower = expand_lower_rec(elems, focus_distance, seed, BRACKET_ITERS as int);
            if focus_distance_spec(elems, lower) > focus_distance {
                Err(LensError::FocusBracketNotFound)
            } else {
                let upper = expand_upper_rec(elems, focus_distance, seed, BRACKET_ITERS as int);
                if focus_distance_spec(elems, upper) < focus_distance {
                    Err(LensError::FocusBracketNotFound)
                } else {
                    let ends = bisect_rec(elems, focus_distance, lower, upper, BISECT_ITERS as int);
                    Ok(fp_mul(FP_HALF as int, fp_add(ends.0, ends.1)))
                }
            }
        },
    }
}

impl RealisticCamera {
    /// Cardinal points `(principal_plane_z, focal_point_z)` of a probe pair.
    pub fn compute_cardinal_points(&self, r_in: &Ray, r_out: &Ray) -> (r: (i64, i64))
        ensures
            (r.0 as int, r.1 as int) == cardinal_points_spec(r_in@, r_out@),
    {
        let tf = div_fp(neg_fp(r_out.o.x), r_out.d.x);
        let fz = neg_fp(r_out.position(tf).z);
        let tp = div_fp(sub_fp(r_in.o.x, r_out.o.x), r_out.d.x);
        let pz = neg_fp(r_out.position(tp).z);
        (pz, fz)
    }

    /// Traces the two axis-parallel calibration probes and returns
    /// `((pz0, pz1), (fz0, fz1))`: principal planes and focal points, film
    /// side first. A blocked probe is a fatal configuration error.
    pub fn compute_thick_lens_approximation(&self) -> (r: Result<((i64, i64), (i64, i64)), LensError>)
        requires
            self.wf(),
        ensures
            r is Ok <==> thick_lens_spec(self@.elements, self@.film_diagonal) is Some,
            r matches Ok(v) ==> thick_lens_spec(self@.elements, self@.film_diagonal) == Some(
                (((v.0).0 as int, (v.0).1 as int), ((v.1).0 as int, (v.1).1 as int)),
            ),
            r is Err ==> r == Err::<((i64, i64), (i64, i64)), LensError>(
                LensError::CalibrationRayBlocked,
            ),
    {
        proof {
            reveal(thick_lens_spec);
        }
        let x = mul_fp(FP_MILLI, self.film_diagonal);
        let front_z = self.lens_front_z();
        let r_scene = Ray {
            o: Vec3 { x: x, y: 0, z: add_fp(front_z, FP_ONE) },
            d: Vec3 { x: 0, y: 0, z: -FP_ONE },
        };
        let r_film = match self.trace_lenses_from_scene(&r_scene) {
            None => {
                return Err(LensError::CalibrationRayBlocked);
            },
            Some(r) => r,
        };
        let film_side = self.compute_cardinal_points(&r_scene, &r_film);
        let r_film2 = Ray {
            o: Vec3 { x: x, y: 0, z: sub_fp(self.lens_rear_z(), FP_ONE) },
            d: Vec3 { x: 0, y: 0, z: FP_ONE },
        };
        let r_scene2 = match self.trace_lenses_from_film(&r_film2) {
            None => {
                return Err(LensError::CalibrationRayBlocked);
            },
            Some(r) => r,
        };
        let scene_side = self.compute_cardinal_points(&r_film2, &r_scene2);
        Ok(((film_side.0, scene_side.0), (film_side.1, scene_side.1)))
    }

    /// Closed-form thick-lens solution for the film distance that focuses at
    /// `focus_distance`. Fails fatally exactly when the discriminant-like
    /// coefficient is non-positive: the focus distance is too short for this
    /// lens stack.
    pub fn focus_thick_lens(&self, focus_distance: i64) -> (r: Result<i64, LensError>)
        requires
            self.wf(),
        ensures
            res_i64_v(r) == focus_thick_lens_spec(
                self@.elements,
                self@.film_diagonal,
                focus_distance as int,
            ),
            (thick_lens_spec(self@.elements, self@.film_diagonal) matches Some(card)
                && focus_c(card.0, card.1, focus_distance as int) <= 0) <==> r == Err::<
                i64,
                LensError,
            >(LensError::FocusDistanceTooShort),
    {
        let card = match self.compute_thick_lens_approximation() {
            Err(e) => {
                return Err(e);
            },
            Ok(v) => v,
        };
        let (pz, fz) = card;
        let f = sub_fp(fz.0, pz.0);
        let z = neg_fp(focus_distance);
        let c = mul_fp(
            sub_fp(sub_fp(pz.1, z), pz.0),
            sub_fp(sub_fp(sub_fp(pz.1, z), mul_fp(FP_FOUR, f)), pz.0),
        );
        if c <= 0 {
            return Err(LensError::FocusDistanceTooShort);
        }
        let delta = mul_fp(FP_HALF, sub_fp(add_fp(sub_fp(pz.1, z), pz.0), sqrt_fp(c)));
        Ok(add_fp(self.lens_rear_z(), delta))
    }

    fn focus_probe_ray(&self, film_dist: i64, scale: i64) -> (r: Ray)
        requires
            self.wf(),
        ensures
            r@ == focus_probe(self@.elements, film_dist as int, scale as int),
    {
        let lu = mul_fp(scale, self.rear_element_radius());
        Ray {
            o: Vec3 { x: 0, y: 0, z: sub_fp(self.lens_rear_z(), film_dist) },
            d: Vec3 { x: lu, y: 0, z: film_dist },
        }
    }

    fn axis_cross(&self, r: &Ray) -> (z: i64)
        ensures
            z as int == axis_cross_z(r@),
    {
        let tf = div_fp(neg_fp(r.o.x), r.d.x);
        let z = r.position(tf).z;
        if z < 0 {
            FP_MAX
        } else {
            z
        }
    }

    /// The focus distance achieved when the film sits `film_dist` behind the
    /// rear element: where a probe ray from the film axis, offset at the rear
    /// element, crosses the optical axis after the trace. Reports the
    /// saturated value (infinity) when the probe diverges.
    pub fn focus_distance(&self, film_dist: i64) -> (r: i64)
        requires
            self.wf(),
        ensures
            r as int == focus_distance_spec(self@.elements, film_dist as int),
    {
        proof {
            reveal(focus_distance_spec);
        }
        let p1 = self.focus_probe_ray(film_dist, PROBE_SCALE_COARSE);
        if let Some(ray) = self.trace_lenses_from_film(&p1) {
            return self.axis_cross(&ray);
        }
        let p2 = self.focus_probe_ray(film_dist, PROBE_SCALE_MID);
        if let Some(ray) = self.trace_lenses_from_film(&p2) {
            return self.axis_cross(&ray);
        }
        let p3 = self.focus_probe_ray(film_dist, PROBE_SCALE_FINE);
        if let Some(ray) = self.trace_lenses_from_film(&p3) {
            return self.axis_cross(&ray);
        }
        FP_MAX
    }

    /// Positions the film by binary search: seeds a bracket with the
    /// closed-form estimate, expands it (a bounded number of steps) until it
    /// straddles the target, then bisects a fixed number of iterations.
    pub fn focus_binary_search(&self, focus_distance: i64) -> (r: Result<i64, LensError>)
        requires
            self.wf(),
        ensures
            res_i64_v(r) == focus_binary_search_spec(
                self@.elements,
                self@.film_diagonal,
                focus_distance as int,
            ),
    {
        let ghost elems = self@.elements;
        let ghost target = focus_distance as int;
        let seed = match self.focus_thick_lens(focus_distance) {
            Err(e) => {
                return Err(e);
            },
            Ok(v) => v,
        };
        let mut lower: i64 = seed;
        let mut k: usize = 0;
        while k < BRACKET_ITERS && self.focus_distance(lower) > focus_distance
            invariant
                self.wf(),
                elems == self@.elements,
                target == focus_distance as int,
                k <= BRACKET_ITERS,
                expand_lower_rec(elems, target, seed as int, BRACKET_ITERS as int)
                    == expand_lower_rec(elems, target, lower as int, (BRACKET_ITERS - k) as int),
            decreases BRACKET_ITERS - k,
        {
            lower = mul_fp(lower, FP_EXPAND);
            k = k + 1;
        }
        if self.focus_distance(lower) > focus_distance {
            return Err(LensError::FocusBracketNotFound);
        }
        let mut upper: i64 = seed;
        k = 0;
        while k < BRACKET_ITERS && self.focus_distance(upper) < focus_distance
            invariant
                self.wf(),
                elems == self@.elements,
                target == focus_distance as int,
                k <= BRACKET_ITERS,
                expand_upper_rec(elems, target, seed as int, BRACKET_ITERS as int)
                    == expand_upper_rec(elems, target, upper as int, (BRACKET_ITERS - k) as int),
            decreases BRACKET_ITERS - k,
        {
            upper = div_fp(upper, FP_EXPAND);
            k = k + 1;
        }
        if self.focus_distance(upper) < focus_distance {
            return Err(LensError::FocusBracketNotFound);
        }
        let ghost lower0 = lower as int;
        let ghost upper0 = upper as int;
        k = 0;
        while k < BISECT_ITERS
            invariant
                self.wf(),
                elems == self@.elements,
                target == focus_distance as int,
                k <= BISECT_ITERS,
                bisect_rec(elems, target, lower0, upper0, BISECT_ITERS as int) == bisect_rec(
                    elems,
                    target,
                    lower as int,
                    upper as int,
                    (BISECT_ITERS - k) as int,
                ),
            decreases BISECT_ITERS - k,
        {
            let mid = mul_fp(FP_HALF, add_fp(lower, upper));
            let mid_focus = self.focus_distance(mid);
            if mid_focus < focus_distance {
                lower = mid;
            } else {
                upper = mid;
            }
            k = k + 1;
        }
        Ok(mul_fp(FP_HALF, add_fp(lower, upper)))
    }

    /// Builds a camera from a flat record stream (millimeter-scaled
    /// quadruples), clamping a stop record's aperture to its declared
    /// maximum, then fixes the film-to-rear-element distance by autofocus.
    /// Returns the camera together with the indices of clamped stop records;
    /// fatal configuration errors abort construction.
    pub fn new(
        shutter_open: i64,
        shutter_close: i64,
        aperture_diameter: i64,
        focus_distance: i64,
        simple_weighting: bool,
        lens_data: &Vec<i64>,
        film_diagonal: i64,
    ) -> (r: Result<(RealisticCamera, Vec<usize>), LensError>)
        ensures
            prescription_malformed(lens_data@) ==> r == Err::<(RealisticCamera, Vec<usize>), LensError>(
                LensError::MalformedPrescription,
            ),
            !prescription_malformed(lens_data@) ==> {
                let elems = elements_of(lens_data@, aperture_diameter as int);
                let focused = focus_binary_search_spec(
                    elems,
                    film_diagonal as int,
                    focus_distance as int,
                );
                match r {
                    Err(e) => focused == Err::<int, LensError>(e),
                    Ok((cam, clamped)) => {
                        &&& focused matches Ok(fd)
                        &&& cam@.elements == elems.update(
                            elems.len() - 1,
                            LensElementV {
                                thickness: fd,
                                ..elems.last()
                            },
                        )
                        &&& cam@.shutter_open == shutter_open as int
                        &&& cam@.shutter_close == shutter_close as int
                        &&& cam@.simple_weighting == simple_weighting
                        &&& cam@.film_diagonal == film_diagonal as int
                        &&& cam@.pupil_cache == Seq::<<crate::geometry::Bounds2 as View>::V>::empty()
                        &&& cam.wf()
                        &&& clamped@ == clamped_records(
                            lens_data@,
                            aperture_diameter as int,
                            lens_data@.len() as int / 4,
                        )
                    },
                }
            },
    {
        let (elems, clamped) = match build_element_interfaces(lens_data, aperture_diameter) {
            Err(e) => {
                return Err(e);
            },
            Ok(v) => v,
        };
        let mut camera = RealisticCamera {
            shutter_open,
            shutter_close,
            simple_weighting,
            film_diagonal,
            element_interfaces: elems,
            exit_pupil_bounds: Vec::new(),
        };
        proof {
            vstd::arithmetic::div_mod::lemma_fundamental_div_mod(lens_data@.len() as int, 4);
            assert(camera@.elements =~= elements_of(lens_data@, aperture_diameter as int));
            assert(camera@.elements.len() > 0);
        }
        let fd = match camera.focus_binary_search(focus_distance) {
            Err(e) => {
                return Err(e);
            },
            Ok(v) => v,
        };
        let n = camera.element_interfaces.len();
        let mut rear = camera.element_interfaces[n - 1];
        rear.thickness = fd;
        camera.element_interfaces.pop();
        camera.element_interfaces.push(rear);
        proof {
            let elems_spec = elements_of(lens_data@, aperture_diameter as int);
            assert(camera@.elements =~= elems_spec.update(
                elems_spec.len() - 1,
                LensElementV { thickness: fd as int, ..elems_spec.last() },
            ));
            assert(camera@.pupil_cache =~= Seq::<<crate::geometry::Bounds2 as View>::V>::empty());
        }
        Ok((camera, clamped))
    }
}

} // verus!

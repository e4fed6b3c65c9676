//! Monte-Carlo exit-pupil bounding and pupil sampling.
//!
//! For a segment of the film's x axis, the estimator enlarges the rear
//! element's square bound by 1.5x, fires a fixed budget of low-discrepancy
//! probe rays at it, and accumulates the rectangle through which rays
//! actually exit the lens system; the result is expanded to compensate for
//! finite sample spacing. When no sample exits, the whole enlarged square is
//! returned, flagged as degenerate.

use vstd::prelude::*;

use crate::fixed::{
    add_fp, div_fp, div_trunc, fp_add, fp_div, fp_mul, fp_of_int, fp_sqrt, fp_sub, mul_fp,
    of_int_fp, sqrt_fp, sub_fp, FP_HALF, FP_ONE, FP_TWO, SCALE,
};
use crate::geometry::{
    b2_diagonal_len, b2_empty, b2_expand, b2_inside, b2_union_pt, fp_lerp, lerp_fp, Bounds2,
    Bounds2V, Point2, Point2V, Ray, RayV, Vec3, Vec3V,
};
use crate::lens::{lens_rear_z_spec, rear_element_radius_spec, LensElementV, RealisticCamera};
use crate::trace::trace_from_film_spec;

verus! {

/// 1.5 in fixed-point units: the enlargement of the rear element's bound.
pub const FP_ENLARGE: i64 = 1_500_000_000;

/// Monte-Carlo sample budget of `bound_exit_pupil`: 2^20 probes.
pub const EXIT_PUPIL_SAMPLES: i64 = 1_048_576;

/// Digit-reversal state: returns `(reversed digits, base^digit_count)`.
pub open spec fn rev_digits(base: int, a: int, rev: int, pw: int) -> (int, int)
    decreases a,
    via rev_digits_decreases
{
    if a <= 0 || base < 2 {
        (rev, pw)
    } else {
        rev_digits(base, a / base, rev * base + a % base, pw * base)
    }
}

#[via_fn]
proof fn rev_digits_decreases(base: int, a: int, rev: int, pw: int) {
    if !(a <= 0 || base < 2) {
        assert(0 <= a / base < a) by (nonlinear_arith)
            requires
                a >= 1,
                base >= 2,
        ;
    }
}

/// The radical inverse of `a` in the given base, as a fixed-point value in
/// `[0, 1)`: the base-`base` digits of `a` mirrored about the radix point.
pub open spec fn radical_inverse_spec(base: int, a: int) -> int {
    let rd = rev_digits(base, a, 0, 1);
    div_trunc(rd.0 * SCALE as int, rd.1)
}

/// Low-discrepancy radical inverse for the two sample dimensions.
pub(crate) fn radical_inverse(base: u64, a: u64) -> (r: i64)
    requires
        2 <= base <= 3,
        a < 0x1_0000_0000,
    ensures
        r as int == radical_inverse_spec(base as int, a as int),
{
    let mut v: u64 = a;
    let mut rev: u64 = 0;
    let mut pw: u64 = 1;
    while v > 0
        invariant
            2 <= base <= 3,
            a < 0x1_0000_0000,
            pw >= 1,
            rev < pw,
            v as int * pw as int <= a as int,
            rev_digits(base as int, a as int, 0, 1) == rev_digits(
                base as int,
                v as int,
                rev as int,
                pw as int,
            ),
        decreases v,
    {
        proof {
            assert(pw as int <= a as int) by (nonlinear_arith)
                requires
                    v as int >= 1,
                    pw as int >= 1,
                    v as int * pw as int <= a as int,
            ;
            assert((v as int / base as int) * (pw as int * base as int) <= v as int
                * pw as int) by (nonlinear_arith)
                requires
                    v as int >= 1,
                    base as int >= 2,
                    pw as int >= 1,
            ;
            assert(rev as int * base as int + (v as int % base as int) < pw as int
                * base as int) by (nonlinear_arith)
                requires
                    (rev as int) < pw as int,
                    2 <= base as int <= 3,
            ;
            assert(pw as int * base as int <= 3 * 0x1_0000_0000) by (nonlinear_arith)
                requires
                    1 <= pw as int <= 0x1_0000_0000,
                    2 <= base as int <= 3,
            ;
            assert(0 <= (v as int) / (base as int) < v as int) by (nonlinear_arith)
                requires
                    v as int >= 1,
                    base as int >= 2,
            ;
        }
        let digit: u64 = v % base;
        rev = rev * base + digit;
        v = v / base;
        pw = pw * base;
    }
    proof {
        vstd::arithmetic::mul::lemma_mul_strict_inequality(
            rev as int,
            pw as int,
            SCALE as int,
        );
        vstd::arithmetic::div_mod::lemma_multiply_divide_lt(
            rev as int * SCALE as int,
            pw as int,
            SCALE as int,
        );
        assert(rev as int * SCALE as int <= 0x1_0000_0000_0000_0000 * 1_000_000_000)
            by (nonlinear_arith)
            requires
                rev as int <= 0x1_0000_0000_0000_0000,
        ;
    }
    let q: u128 = (rev as u128) * (SCALE as u128) / (pw as u128);
    q as i64
}

/// The rear element's square bound on the sampling plane, enlarged by 1.5x.
pub open spec fn proj_rear_bounds_spec(elems: Seq<LensElementV>) -> Bounds2V {
    let r = rear_element_radius_spec(elems);
    Bounds2V {
        p_min: Point2V {
            x: fp_mul(-(FP_ENLARGE as int), r),
            y: fp_mul(-(FP_ENLARGE as int), r),
        },
        p_max: Point2V { x: fp_mul(FP_ENLARGE as int, r), y: fp_mul(FP_ENLARGE as int, r) },
    }
}

/// Film point of sample `i`: its x coordinate interpolates the segment
/// `[x0, x1]` at parameter `(i + 0.5) / n`.
pub open spec fn pupil_film_point(x0: int, x1: int, n: int, i: int) -> Vec3V {
    let t = fp_div(fp_add(fp_of_int(i), FP_HALF as int), fp_of_int(n));
    Vec3V { x: fp_lerp(t, x0, x1), y: 0, z: 0 }
}

/// Rear-plane aim point of sample `i`: the bases-2-and-3 low-discrepancy
/// point mapped into the enlarged rear bound, on the rear element's plane.
pub open spec fn pupil_rear_point(elems: Seq<LensElementV>, i: int) -> Vec3V {
    let b = proj_rear_bounds_spec(elems);
    let u0 = radical_inverse_spec(2, i);
    let u1 = radical_inverse_spec(3, i);
    Vec3V {
        x: fp_lerp(u0, b.p_min.x, b.p_max.x),
        y: fp_lerp(u1, b.p_min.y, b.p_max.y),
        z: lens_rear_z_spec(elems),
    }
}

/// Whether sample `i` exits: either its aim point already lies inside the
/// bound accumulated so far, or the film-to-rear probe traverses the stack.
#[verifier::opaque]
pub open spec fn pupil_sample_exits(
    elems: Seq<LensElementV>,
    x0: int,
    x1: int,
    n: int,
    i: int,
    b: Bounds2V,
) -> bool {
    let p_film = pupil_film_point(x0, x1, n, i);
    let p_rear = pupil_rear_point(elems, i);
    let pr = Point2V { x: p_rear.x, y: p_rear.y };
    b2_inside(pr, b) || trace_from_film_spec(
        elems,
        RayV {
            o: p_film,
            d: Vec3V {
                x: fp_sub(p_rear.x, p_film.x),
                y: fp_sub(p_rear.y, p_film.y),
                z: fp_sub(p_rear.z, p_film.z),
            },
        },
    ) is Some
}

/// The accumulated bound and exit count after samples `i..n` are drawn on
/// top of state `(b, cnt)`.
pub open spec fn pupil_rec(
    elems: Seq<LensElementV>,
    x0: int,
    x1: int,
    n: int,
    i: int,
    b: Bounds2V,
    cnt: int,
) -> (Bounds2V, int)
    decreases n - i,
{
    if i >= n {
        (b, cnt)
    } else {
        let p_rear = pupil_rear_point(elems, i);
        let pr = Point2V { x: p_rear.x, y: p_rear.y };
        if pupil_sample_exits(elems, x0, x1, n, i, b) {
            pupil_rec(elems, x0, x1, n, i + 1, b2_union_pt(b, pr), cnt + 1)
        } else {
            pupil_rec(elems, x0, x1, n, i + 1, b, cnt)
        }
    }
}

/// The exit-pupil bound for the film segment `[x0, x1]` with an `n`-sample
/// budget, and whether the degenerate fallback (no sample exited; the whole
/// enlarged square is returned unexpanded) was taken.
pub open spec fn bound_exit_pupil_spec(elems: Seq<LensElementV>, x0: int, x1: int, n: int) -> (
    Bounds2V,
    bool,
) {
    let acc = pupil_rec(elems, x0, x1, n, 0, b2_empty(), 0);
    if acc.1 == 0 {
        (proj_rear_bounds_spec(elems), true)
    } else {
        let delta = fp_div(
            fp_mul(FP_TWO as int, b2_diagonal_len(proj_rear_bounds_spec(elems))),
            fp_sqrt(fp_of_int(n)),
        );
        (b2_expand(acc.0, delta), false)
    }
}

/// Lower film radius of cache bucket `b` out of `n`: the fraction `b / n`
/// of the film's semi-diagonal.
pub open spec fn bucket_radius_spec(film_diagonal: int, n_buckets: int, b: int) -> int {
    fp_div(fp_mul(fp_div(fp_of_int(b), fp_of_int(n_buckets)), film_diagonal), FP_TWO as int)
}

/// Where a pupil sample lands on the rear plane and the sampled bound's
/// area: the 2D variate interpolates the bound, and the point is rotated
/// from the x axis to the film point's azimuth (the lens system is axially
/// symmetric, so bounds are computed along the x axis only).
pub open spec fn sample_exit_pupil_spec(
    elems: Seq<LensElementV>,
    p_film: Point2V,
    lens_sample: Point2V,
    b: Bounds2V,
) -> (Vec3V, int) {
    let lx = fp_lerp(lens_sample.x, b.p_min.x, b.p_max.x);
    let ly = fp_lerp(lens_sample.y, b.p_min.y, b.p_max.y);
    let area = fp_mul(fp_sub(b.p_max.x, b.p_min.x), fp_sub(b.p_max.y, b.p_min.y));
    let r_film = fp_sqrt(fp_add(fp_mul(p_film.x, p_film.x), fp_mul(p_film.y, p_film.y)));
    let cos_t = if r_film != 0 {
        fp_div(p_film.x, r_film)
    } else {
        FP_ONE as int
    };
    let sin_t = if r_film != 0 {
        fp_div(p_film.y, r_film)
    } else {
        0
    };
    (
        Vec3V {
            x: fp_sub(fp_mul(cos_t, lx), fp_mul(sin_t, ly)),
            y: fp_add(fp_mul(sin_t, lx), fp_mul(cos_t, ly)),
            z: lens_rear_z_spec(elems),
        },
        area,
    )
}

impl RealisticCamera {
    fn proj_rear_bounds(&self) -> (r: Bounds2)
        requires
            self.wf(),
        ensures
            r@ == proj_rear_bounds_spec(self@.elements),
    {
        let rear_radius = self.rear_element_radius();
        Bounds2 {
            p_min: Point2 {
                x: mul_fp(-FP_ENLARGE, rear_radius),
                y: mul_fp(-FP_ENLARGE, rear_radius),
            },
            p_max: Point2 {
                x: mul_fp(FP_ENLARGE, rear_radius),
                y: mul_fp(FP_ENLARGE, rear_radius),
            },
        }
    }

    fn pupil_sample_points(&self, x0: i64, x1: i64, n: i64, i: i64) -> (r: (Vec3, Vec3))
        requires
            self.wf(),
            0 <= i < 0x1_0000_0000,
        ensures
            r.0@ == pupil_film_point(x0 as int, x1 as int, n as int, i as int),
            r.1@ == pupil_rear_point(self@.elements, i as int),
    {
        let t = div_fp(add_fp(of_int_fp(i), FP_HALF), of_int_fp(n));
        let p_film = Vec3 { x: lerp_fp(t, x0, x1), y: 0, z: 0 };
        let b = self.proj_rear_bounds();
        let u0 = radical_inverse(2, i as u64);
        let u1 = radical_inverse(3, i as u64);
        let p_rear = Vec3 {
            x: lerp_fp(u0, b.p_min.x, b.p_max.x),
            y: lerp_fp(u1, b.p_min.y, b.p_max.y),
            z: self.lens_rear_z(),
        };
        (p_film, p_rear)
    }

    /// The exit-pupil estimate for the film segment `[p_film_x0, p_film_x1]`
    /// with an explicit sample budget. The flag reports the degenerate case
    /// in which no sample exited and the enlarged rear bound was returned.
    pub fn bound_exit_pupil_samples(&self, p_film_x0: i64, p_film_x1: i64, n_samples: i64) -> (r: (
        Bounds2,
        bool,
    ))
        requires
            self.wf(),
            1 <= n_samples <= 0x1_0000_0000,
        ensures
            (r.0@, r.1) == bound_exit_pupil_spec(
                self@.elements,
                p_film_x0 as int,
                p_film_x1 as int,
                n_samples as int,
            ),
            r.1 ==> r.0@ == proj_rear_bounds_spec(self@.elements),
    {
        let ghost elems = self@.elements;
        let mut pupil_bounds: Bounds2 = Bounds2::empty();
        let mut n_exiting_rays: i64 = 0;
        let mut i: i64 = 0;
        while i < n_samples
            invariant
                self.wf(),
                elems == self@.elements,
                1 <= n_samples <= 0x1_0000_0000,
                0 <= i <= n_samples,
                0 <= n_exiting_rays <= i,
                pupil_rec(elems, p_film_x0 as int, p_film_x1 as int, n_samples as int, 0,
                    b2_empty(), 0) == pupil_rec(
                    elems,
                    p_film_x0 as int,
                    p_film_x1 as int,
                    n_samples as int,
                    i as int,
                    pupil_bounds@,
                    n_exiting_rays as int,
                ),
            decreases n_samples - i,
        {
            let ghost b_in = pupil_bounds@;
            let ghost cnt_in = n_exiting_rays as int;
            let (p_film, p_rear) = self.pupil_sample_points(p_film_x0, p_film_x1, n_samples, i);
            let pr = Point2 { x: p_rear.x, y: p_rear.y };
            let exits: bool = if pupil_bounds.inside(&pr) {
                true
            } else {
                let probe = Ray { o: p_film, d: p_rear.sub(p_film) };
                self.trace_lenses_from_film(&probe).is_some()
            };
            proof {
                reveal(pupil_sample_exits);
                assert(exits == pupil_sample_exits(
                    elems,
                    p_film_x0 as int,
                    p_film_x1 as int,
                    n_samples as int,
                    i as int,
                    b_in,
                ));
            }
            if exits {
                pupil_bounds = pupil_bounds.union_pt(&pr);
                n_exiting_rays = n_exiting_rays + 1;
            }
            proof {
                assert(pupil_rec(elems, p_film_x0 as int, p_film_x1 as int, n_samples as int,
                    i as int, b_in, cnt_in) == pupil_rec(
                    elems,
                    p_film_x0 as int,
                    p_film_x1 as int,
                    n_samples as int,
                    i as int + 1,
                    pupil_bounds@,
                    n_exiting_rays as int,
                ));
            }
            i = i + 1;
        }
        if n_exiting_rays == 0 {
            return (self.proj_rear_bounds(), true);
        }
        let proj = self.proj_rear_bounds();
        let delta = div_fp(
            mul_fp(FP_TWO, proj.diagonal_length()),
            sqrt_fp(of_int_fp(n_samples)),
        );
        (pupil_bounds.expand(delta), false)
    }

    /// The exit-pupil estimate for the film segment `[p_film_x0, p_film_x1]`
    /// at the full Monte-Carlo budget. Axial symmetry makes the result a
    /// function of the segment's radius alone, so it is cached per
    /// film-radius bucket by the caller.
    pub fn bound_exit_pupil(&self, p_film_x0: i64, p_film_x1: i64) -> (r: (Bounds2, bool))
        requires
            self.wf(),
        ensures
            (r.0@, r.1) == bound_exit_pupil_spec(
                self@.elements,
                p_film_x0 as int,
                p_film_x1 as int,
                EXIT_PUPIL_SAMPLES as int,
            ),
            r.1 ==> r.0@ == proj_rear_bounds_spec(self@.elements),
    {
        self.bound_exit_pupil_samples(p_film_x0, p_film_x1, EXIT_PUPIL_SAMPLES)
    }

    fn bucket_radius(&self, n_buckets: i64, b: i64) -> (r: i64)
        ensures
            r as int == bucket_radius_spec(self@.film_diagonal, n_buckets as int, b as int),
    {
        div_fp(mul_fp(div_fp(of_int_fp(b), of_int_fp(n_buckets)), self.film_diagonal), FP_TWO)
    }

    /// Populates the per-film-radius-bucket cache of exit-pupil bounds
    /// eagerly: bucket `b` covers film radii between fractions `b / n` and
    /// `(b + 1) / n` of the film's semi-diagonal. Once computed, a bucket
    /// never changes; rendering threads may then read the cache freely.
    pub fn compute_exit_pupil_bounds(&mut self, n_buckets: usize, samples_per_bucket: i64)
        requires
            old(self).wf(),
            1 <= n_buckets <= 1024,
            1 <= samples_per_bucket <= 0x1_0000_0000,
        ensures
            final(self)@.elements == old(self)@.elements,
            final(self)@.film_diagonal == old(self)@.film_diagonal,
            final(self)@.shutter_open == old(self)@.shutter_open,
            final(self)@.shutter_close == old(self)@.shutter_close,
            final(self)@.simple_weighting == old(self)@.simple_weighting,
            final(self)@.pupil_cache.len() == n_buckets as int,
            forall|b: int|
                0 <= b < n_buckets as int ==> final(self)@.pupil_cache[b] == bound_exit_pupil_spec(
                    old(self)@.elements,
                    bucket_radius_spec(old(self)@.film_diagonal, n_buckets as int, b),
                    bucket_radius_spec(old(self)@.film_diagonal, n_buckets as int, b + 1),
                    samples_per_bucket as int,
                ).0,
    {
        let ghost elems = self@.elements;
        let ghost diag = self@.film_diagonal;
        let mut cache: Vec<Bounds2> = Vec::new();
        let mut b: usize = 0;
        while b < n_buckets
            invariant
                self.wf(),
                elems == self@.elements,
                diag == self@.film_diagonal,
                1 <= n_buckets <= 1024,
                1 <= samples_per_bucket <= 0x1_0000_0000,
                b <= n_buckets,
                cache@.len() == b as int,
                forall|j: int|
                    0 <= j < b as int ==> cache@[j]@ == bound_exit_pupil_spec(
                        elems,
                        bucket_radius_spec(diag, n_buckets as int, j),
                        bucket_radius_spec(diag, n_buckets as int, j + 1),
                        samples_per_bucket as int,
                    ).0,
            decreases n_buckets - b,
        {
            let r0 = self.bucket_radius(n_buckets as i64, b as i64);
            let r1 = self.bucket_radius(n_buckets as i64, b as i64 + 1);
            let (bounds, _degenerate) = self.bound_exit_pupil_samples(r0, r1, samples_per_bucket);
            cache.push(bounds);
            b = b + 1;
        }
        self.exit_pupil_bounds = cache;
        proof {
            assert(self@.pupil_cache.len() == n_buckets as int);
        }
    }

    /// Maps a 2D variate to a point on the rear sampling plane inside the
    /// given exit-pupil bound, rotated to the film point's azimuth, and
    /// returns it with the bound's area.
    pub fn sample_exit_pupil(&self, p_film: &Point2, lens_sample: &Point2, pupil_bounds: &Bounds2)
        -> (r: (Vec3, i64))
        requires
            self.wf(),
        ensures
            (r.0@, r.1 as int) == sample_exit_pupil_spec(
                self@.elements,
                p_film@,
                lens_sample@,
                pupil_bounds@,
            ),
    {
        let lx = lerp_fp(lens_sample.x, pupil_bounds.p_min.x, pupil_bounds.p_max.x);
        let ly = lerp_fp(lens_sample.y, pupil_bounds.p_min.y, pupil_bounds.p_max.y);
        let area = mul_fp(
            sub_fp(pupil_bounds.p_max.x, pupil_bounds.p_min.x),
            sub_fp(pupil_bounds.p_max.y, pupil_bounds.p_min.y),
        );
        let r_film = sqrt_fp(add_fp(mul_fp(p_film.x, p_film.x), mul_fp(p_film.y, p_film.y)));
        let cos_t: i64 = if r_film != 0 {
            div_fp(p_film.x, r_film)
        } else {
            FP_ONE
        };
        let sin_t: i64 = if r_film != 0 {
            div_fp(p_film.y, r_film)
        } else {
            0
        };
        let p = Vec3 {
            x: sub_fp(mul_fp(cos_t, lx), mul_fp(sin_t, ly)),
            y: add_fp(mul_fp(sin_t, lx), mul_fp(cos_t, ly)),
            z: self.lens_rear_z(),
        };
        (p, area)
    }
}

} // verus!

use lens_optics::fixed::{div_fp, mul_fp, of_int_fp, FP_TWO, SCALE};
use lens_optics::geometry::{Bounds2, Point2};
use lens_optics::lens::{LensElementInterface, RealisticCamera};

fn fp(x: f64) -> i64 {
    (x * SCALE as f64).round() as i64
}

fn elem(radius_mm: f64, thickness_mm: f64, eta: f64, aperture_mm: f64) -> LensElementInterface {
    LensElementInterface {
        curvature_radius: fp(radius_mm * 0.001),
        thickness: fp(thickness_mm * 0.001),
        eta: fp(eta),
        aperture_radius: fp(aperture_mm * 0.001 / 2.0),
    }
}

fn camera(elements: Vec<LensElementInterface>) -> RealisticCamera {
    RealisticCamera {
        shutter_open: 0,
        shutter_close: fp(1.0),
        simple_weighting: true,
        film_diagonal: fp(0.035),
        element_interfaces: elements,
        exit_pupil_bounds: Vec::new(),
    }
}

#[test]
fn degenerate_pupil_returns_enlarged_square_unexpanded() {
    // A rear aperture radius of one fixed-point unit (a nanometer): no probe
    // can exit, so the full Monte-Carlo run falls back to exactly the
    // 1.5x-enlarged projected rear bound, flagged as degenerate.
    let cam = camera(vec![LensElementInterface {
        curvature_radius: 0,
        thickness: 0,
        eta: 0,
        aperture_radius: 1,
    }]);
    let (bounds, degenerate) = cam.bound_exit_pupil(0, fp(0.000035));
    assert!(degenerate);
    assert_eq!(
        bounds,
        Bounds2 {
            p_min: Point2 { x: -1, y: -1 },
            p_max: Point2 { x: 1, y: 1 },
        }
    );
}

#[test]
fn pupil_bound_covers_open_stop() {
    // A bare 2mm stop 5mm from the film: the exit pupil is the 1mm-radius
    // disc, so the accumulated (and sample-spacing-expanded) bound must
    // land a little outside that disc's bounding square.
    let cam = camera(vec![elem(0.0, 5.0, 0.0, 2.0)]);
    let (bounds, degenerate) = cam.bound_exit_pupil_samples(0, fp(0.00035), 4096);
    assert!(!degenerate);
    assert!(fp(0.0008) < bounds.p_max.x && bounds.p_max.x < fp(0.0014));
    assert!(fp(0.0008) < bounds.p_max.y && bounds.p_max.y < fp(0.0014));
    assert!(-fp(0.0014) < bounds.p_min.x && bounds.p_min.x < -fp(0.0008));
    assert!(-fp(0.0014) < bounds.p_min.y && bounds.p_min.y < -fp(0.0008));
}

#[test]
fn sample_exit_pupil_center_of_bounds() {
    let cam = camera(vec![elem(0.0, 5.0, 0.0, 2.0)]);
    let bounds = Bounds2 {
        p_min: Point2 { x: 0, y: 0 },
        p_max: Point2 { x: fp(0.002), y: fp(0.002) },
    };
    // An on-axis film point keeps the sampled point unrotated; the variate
    // (0.5, 0.5) lands in the middle, and the area is exact.
    let (p, area) = cam.sample_exit_pupil(
        &Point2 { x: 0, y: 0 },
        &Point2 { x: fp(0.5), y: fp(0.5) },
        &bounds,
    );
    assert_eq!(p.x, fp(0.001));
    assert_eq!(p.y, fp(0.001));
    assert_eq!(p.z, fp(0.005));
    assert_eq!(area, 4000);
}

#[test]
fn sample_exit_pupil_on_x_axis_film_point() {
    // A film point on the positive x axis has azimuth zero: the rotation is
    // the identity (cos 1, sin 0), computed exactly.
    let cam = camera(vec![elem(0.0, 5.0, 0.0, 2.0)]);
    let bounds = Bounds2 {
        p_min: Point2 { x: 0, y: 0 },
        p_max: Point2 { x: fp(0.002), y: fp(0.002) },
    };
    let (p, _area) = cam.sample_exit_pupil(
        &Point2 { x: fp(0.001), y: 0 },
        &Point2 { x: fp(0.5), y: fp(0.5) },
        &bounds,
    );
    assert_eq!(p.x, fp(0.001));
    assert_eq!(p.y, fp(0.001));
}

#[test]
fn exit_pupil_cache_matches_per_bucket_bounds() {
    let mut cam = camera(vec![elem(0.0, 5.0, 0.0, 2.0)]);
    cam.compute_exit_pupil_bounds(4, 256);
    assert_eq!(cam.exit_pupil_bounds.len(), 4);
    let reference = camera(vec![elem(0.0, 5.0, 0.0, 2.0)]);
    let radius_of = |b: i64| -> i64 {
        div_fp(
            mul_fp(div_fp(of_int_fp(b), of_int_fp(4)), reference.film_diagonal),
            FP_TWO,
        )
    };
    for b in 0..4i64 {
        let (bounds, _) =
            reference.bound_exit_pupil_samples(radius_of(b), radius_of(b + 1), 256);
        assert_eq!(cam.exit_pupil_bounds[b as usize], bounds);
    }
}

#[test]
fn axial_getters_are_exact() {
    let cam = camera(vec![elem(30.0, 5.0, 1.5, 20.0), elem(-30.0, 45.0, 1.0, 20.0)]);
    assert_eq!(cam.lens_rear_z(), fp(0.045));
    assert_eq!(cam.lens_front_z(), fp(0.05));
    assert_eq!(cam.rear_element_radius(), fp(0.01));
}

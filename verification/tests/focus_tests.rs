use lens_optics::fixed::SCALE;
use lens_optics::geometry::{Ray, Vec3};
use lens_optics::lens::{build_element_interfaces, LensElementInterface, LensError, RealisticCamera};

fn fp(x: f64) -> i64 {
    (x * SCALE as f64).round() as i64
}

fn to_f(x: i64) -> f64 {
    x as f64 / SCALE as f64
}

fn elem(radius_mm: f64, thickness_mm: f64, eta: f64, aperture_mm: f64) -> LensElementInterface {
    LensElementInterface {
        curvature_radius: fp(radius_mm * 0.001),
        thickness: fp(thickness_mm * 0.001),
        eta: fp(eta),
        aperture_radius: fp(aperture_mm * 0.001 / 2.0),
    }
}

fn camera(elements: Vec<LensElementInterface>) -> RealisticCamera {
    RealisticCamera {
        shutter_open: 0,
        shutter_close: fp(1.0),
        simple_weighting: true,
        film_diagonal: fp(0.035),
        element_interfaces: elements,
        exit_pupil_bounds: Vec::new(),
    }
}

/// A biconvex singlet (focal length near 30mm) with a generous rear gap.
fn singlet() -> Vec<LensElementInterface> {
    vec![elem(30.0, 5.0, 1.5, 20.0), elem(-30.0, 45.0, 1.0, 20.0)]
}

#[test]
fn cardinal_points_exact() {
    let cam = camera(singlet());
    let r_in = Ray {
        o: Vec3 { x: fp(0.001), y: 0, z: fp(1.0) },
        d: Vec3 { x: 0, y: 0, z: fp(-1.0) },
    };
    let r_out = Ray {
        o: Vec3 { x: fp(0.0005), y: 0, z: 0 },
        d: Vec3 { x: fp(-0.0005), y: 0, z: fp(-0.5) },
    };
    // The outgoing ray crosses the axis at t = 1 (z = -0.5, camera z = 0.5)
    // and meets the incoming height 0.001 at t = -1 (camera z = -0.5);
    // every division here is exact in fixed point.
    assert_eq!(cam.compute_cardinal_points(&r_in, &r_out), (fp(-0.5), fp(0.5)));
}

#[test]
fn thick_lens_approximation_of_singlet() {
    let cam = camera(singlet());
    let ((pz0, pz1), (fz0, fz1)) = cam
        .compute_thick_lens_approximation()
        .expect("calibration probes must pass a 20mm aperture");
    // Effective focal length of the biconvex singlet is close to the
    // thin-lens value R / (2 (eta - 1)) = 30mm.
    let f = to_f(fz0) - to_f(pz0);
    assert!((f - 0.030).abs() < 0.005, "film-side focal length {}", f);
    let f2 = to_f(pz1) - to_f(fz1);
    assert!((f2 - 0.030).abs() < 0.005, "scene-side focal length {}", f2);
}

#[test]
fn focus_thick_lens_rejects_too_short_distance() {
    // 50mm is well inside the ~4f minimum of a 30mm lens: the closed-form
    // coefficient is non-positive and focusing fails fatally.
    let cam = camera(singlet());
    assert_eq!(cam.focus_thick_lens(fp(0.05)), Err(LensError::FocusDistanceTooShort));
}

#[test]
fn focus_thick_lens_accepts_long_distance() {
    let cam = camera(singlet());
    let film_dist = cam.focus_thick_lens(fp(10.0)).expect("10m is focusable");
    assert!(
        0.0 < to_f(film_dist) && to_f(film_dist) < 0.1,
        "implausible film distance {}",
        to_f(film_dist)
    );
}

#[test]
fn focus_binary_search_achieves_target() {
    let cam = camera(singlet());
    let target = fp(5.0);
    let film_dist = cam.focus_binary_search(target).expect("5m is focusable");
    let achieved = cam.focus_distance(film_dist);
    let rel = (to_f(achieved) - 5.0).abs() / 5.0;
    assert!(rel < 0.05, "achieved focus {} for target 5.0", to_f(achieved));
}

#[test]
fn new_camera_builds_and_focuses() {
    let data: Vec<i64> = vec![
        fp(30.0),
        fp(5.0),
        fp(1.5),
        fp(20.0),
        fp(-30.0),
        fp(45.0),
        fp(1.0),
        fp(20.0),
    ];
    let (cam, clamped) = RealisticCamera::new(0, fp(1.0), fp(20.0), fp(5.0), true, &data, fp(0.035))
        .expect("the singlet prescription is focusable");
    assert!(clamped.is_empty());
    assert!(cam.exit_pupil_bounds.is_empty());
    // The rear gap was replaced by the autofocus result, computed on the
    // prescription as loaded.
    let reference = camera(singlet());
    let expected = reference.focus_binary_search(fp(5.0)).unwrap();
    assert_eq!(cam.element_interfaces.last().unwrap().thickness, expected);
    assert_eq!(cam.element_interfaces[0], elem(30.0, 5.0, 1.5, 20.0));
}

#[test]
fn new_rejects_malformed_prescription() {
    let five: Vec<i64> = vec![fp(30.0), fp(5.0), fp(1.5), fp(20.0), fp(1.0)];
    let r = RealisticCamera::new(0, fp(1.0), fp(20.0), fp(5.0), true, &five, fp(0.035));
    assert!(matches!(r, Err(LensError::MalformedPrescription)));
    let empty: Vec<i64> = Vec::new();
    let r2 = RealisticCamera::new(0, fp(1.0), fp(20.0), fp(5.0), true, &empty, fp(0.035));
    assert!(matches!(r2, Err(LensError::MalformedPrescription)));
}

#[test]
fn oversized_aperture_request_clamps_to_stop_maximum() {
    // The stop record declares a 5mm maximum; a 10mm request is clamped to
    // it (reported, not an error), while a 2mm request is honored.
    let data: Vec<i64> = vec![
        fp(30.0),
        fp(5.0),
        fp(1.5),
        fp(20.0),
        fp(0.0),
        fp(0.0),
        fp(0.0),
        fp(5.0),
    ];
    let (elems, clamped) = build_element_interfaces(&data, fp(10.0)).unwrap();
    assert_eq!(clamped, vec![1]);
    assert_eq!(elems[1].aperture_radius, fp(0.0025));
    assert_eq!(elems[0].aperture_radius, fp(0.01));

    let (elems2, clamped2) = build_element_interfaces(&data, fp(2.0)).unwrap();
    assert!(clamped2.is_empty());
    assert_eq!(elems2[1].aperture_radius, fp(0.001));
}

#[test]
fn calibration_probe_blocked_is_fatal() {
    // An aperture of 0.00001mm cannot admit the calibration probe height.
    let cam = camera(vec![elem(30.0, 5.0, 1.5, 0.00001), elem(-30.0, 45.0, 1.0, 0.00001)]);
    assert_eq!(
        cam.compute_thick_lens_approximation(),
        Err(LensError::CalibrationRayBlocked)
    );
    assert_eq!(cam.focus_thick_lens(fp(5.0)), Err(LensError::CalibrationRayBlocked));
}

#[test]
fn unbracketable_focus_reports_failure() {
    // A nearly closed stop between the glass and the film: the on-axis
    // calibration probes still pass (the film diagonal is made tiny so the
    // probe height rounds to the axis), but every off-axis focus probe is
    // blocked, the achieved focus distance saturates, and no bracket around
    // the seed can straddle the target.
    let cam = RealisticCamera {
        shutter_open: 0,
        shutter_close: fp(1.0),
        simple_weighting: true,
        film_diagonal: fp(0.0000001),
        element_interfaces: vec![
            elem(30.0, 5.0, 1.5, 20.0),
            elem(0.0, 2.0, 0.0, 0.0001),
            elem(-30.0, 43.0, 1.0, 20.0),
        ],
        exit_pupil_bounds: Vec::new(),
    };
    assert_eq!(cam.focus_binary_search(fp(5.0)), Err(LensError::FocusBracketNotFound));
}

use lens_optics::fixed::SCALE;
use lens_optics::geometry::{Ray, Vec3};
use lens_optics::lens::{LensElementInterface, RealisticCamera};
use lens_optics::trace::{quadratic, refract};

/// Converts a real number to the library's fixed-point representation.
fn fp(x: f64) -> i64 {
    (x * SCALE as f64).round() as i64
}

fn to_f(x: i64) -> f64 {
    x as f64 / SCALE as f64
}

/// One element from a millimeter-scaled record, as the prescription builder
/// would produce it.
fn elem(radius_mm: f64, thickness_mm: f64, eta: f64, aperture_mm: f64) -> LensElementInterface {
    LensElementInterface {
        curvature_radius: fp(radius_mm * 0.001),
        thickness: fp(thickness_mm * 0.001),
        eta: fp(eta),
        aperture_radius: fp(aperture_mm * 0.001 / 2.0),
    }
}

fn camera(elements: Vec<LensElementInterface>) -> RealisticCamera {
    RealisticCamera {
        shutter_open: 0,
        shutter_close: fp(1.0),
        simple_weighting: true,
        film_diagonal: fp(0.035),
        element_interfaces: elements,
        exit_pupil_bounds: Vec::new(),
    }
}

#[test]
fn stop_only_passes_on_axis() {
    // A pure stop of 2.0mm aperture diameter admits an on-axis ray aimed at
    // its center, and hands it through unchanged.
    let cam = camera(vec![elem(0.0, 0.0, 0.0, 2.0)]);
    let ray = Ray {
        o: Vec3 { x: 0, y: 0, z: 0 },
        d: Vec3 { x: 0, y: 0, z: fp(1.0) },
    };
    let out = cam.trace_lenses_from_film(&ray);
    assert_eq!(out, Some(ray));
}

#[test]
fn stop_only_rejects_off_axis() {
    // A ray meeting the stop plane beyond the 1.0mm aperture radius is
    // vignetted away.
    let cam = camera(vec![elem(0.0, 0.0, 0.0, 2.0)]);
    let ray = Ray {
        o: Vec3 { x: fp(0.0015), y: 0, z: 0 },
        d: Vec3 { x: 0, y: 0, z: fp(1.0) },
    };
    assert_eq!(cam.trace_lenses_from_film(&ray), None);
}

#[test]
fn paraxial_ray_converges_through_front_surface() {
    // A front surface bulging toward the scene (center of curvature on the
    // film side, positive radius under the tracer's sign rule) with eta 1.5
    // bends a paraxial axis-parallel ray toward the axis.
    let cam = camera(vec![elem(20.0, 2.0, 1.5, 10.0), elem(0.0, 0.0, 0.0, 5.0)]);
    let ray = Ray {
        o: Vec3 { x: fp(0.0005), y: 0, z: fp(0.003) },
        d: Vec3 { x: 0, y: 0, z: fp(-1.0) },
    };
    let out = cam.trace_lenses_from_scene(&ray).expect("paraxial probe must pass");
    assert!(out.d.x < 0, "expected refraction toward the axis, got d.x = {}", out.d.x);
    assert!(out.d.z < 0, "ray must keep moving toward the film");
}

#[test]
fn front_surface_with_scene_side_center_diverges() {
    // With the curvature center on the scene side (negative radius) the same
    // surface is concave toward the scene and spreads the ray away from the
    // axis: the sign of the radius fixes the surface's power.
    let cam = camera(vec![elem(-20.0, 2.0, 1.5, 10.0), elem(0.0, 0.0, 0.0, 5.0)]);
    let ray = Ray {
        o: Vec3 { x: fp(0.0005), y: 0, z: fp(0.003) },
        d: Vec3 { x: 0, y: 0, z: fp(-1.0) },
    };
    let out = cam.trace_lenses_from_scene(&ray).expect("paraxial probe must pass");
    assert!(out.d.x > 0, "expected refraction away from the axis, got d.x = {}", out.d.x);
}

#[test]
fn tracing_is_deterministic() {
    let cam = camera(vec![elem(20.0, 2.0, 1.5, 10.0), elem(0.0, 0.0, 0.0, 5.0)]);
    let ray = Ray {
        o: Vec3 { x: fp(0.0002), y: fp(-0.0001), z: 0 },
        d: Vec3 { x: fp(0.01), y: fp(0.02), z: fp(1.0) },
    };
    assert_eq!(cam.trace_lenses_from_film(&ray), cam.trace_lenses_from_film(&ray));
    let scene_ray = Ray {
        o: Vec3 { x: fp(0.0005), y: 0, z: fp(0.003) },
        d: Vec3 { x: 0, y: 0, z: fp(-1.0) },
    };
    assert_eq!(
        cam.trace_lenses_from_scene(&scene_ray),
        cam.trace_lenses_from_scene(&scene_ray)
    );
}

#[test]
fn intersect_hit_lies_on_sphere() {
    // Sphere of radius 20mm centered 50mm down the axis; an axial ray picks
    // the farther root (direction and curvature sign agree), so it stops at
    // t = 70mm, and the hit point sits on the sphere within tolerance.
    let cam = camera(vec![elem(0.0, 0.0, 0.0, 2.0)]);
    let ray = Ray {
        o: Vec3 { x: 0, y: 0, z: 0 },
        d: Vec3 { x: 0, y: 0, z: fp(-1.0) },
    };
    let radius = fp(0.02);
    let z_center = fp(-0.05);
    let (t, _n) = cam
        .intersect_spherical_element(radius, z_center, &ray)
        .expect("axial ray must hit the sphere");
    assert!((to_f(t) - 0.07).abs() < 1e-6, "t = {}", to_f(t));
    let hit_z = to_f(ray.o.z) + to_f(t) * to_f(ray.d.z);
    let dist = (hit_z - to_f(z_center)).abs();
    assert!((dist - 0.02).abs() < 1e-6, "|hit - center| = {}", dist);

    // Flipping the curvature sign flips the rule to the nearer root.
    let (t2, _n2) = cam
        .intersect_spherical_element(-radius, z_center, &ray)
        .expect("axial ray must hit the sphere");
    assert!((to_f(t2) - 0.03).abs() < 1e-6, "t = {}", to_f(t2));
    let hit_z2 = to_f(ray.o.z) + to_f(t2) * to_f(ray.d.z);
    assert!(((hit_z2 - to_f(z_center)).abs() - 0.02).abs() < 1e-6);
}

#[test]
fn intersect_misses_sphere() {
    let cam = camera(vec![elem(0.0, 0.0, 0.0, 2.0)]);
    let ray = Ray {
        o: Vec3 { x: fp(0.03), y: 0, z: 0 },
        d: Vec3 { x: 0, y: 0, z: fp(-1.0) },
    };
    assert_eq!(cam.intersect_spherical_element(fp(0.02), fp(-0.05), &ray), None);
}

#[test]
fn intersect_rejects_sphere_behind_origin() {
    // The sphere lies opposite to the travel direction: the selected root is
    // negative and the intersection fails.
    let cam = camera(vec![elem(0.0, 0.0, 0.0, 2.0)]);
    let ray = Ray {
        o: Vec3 { x: 0, y: 0, z: 0 },
        d: Vec3 { x: 0, y: 0, z: fp(-1.0) },
    };
    assert_eq!(cam.intersect_spherical_element(fp(0.02), fp(0.05), &ray), None);
}

#[test]
fn vignetting_rejects_beyond_aperture_on_curved_element() {
    // The surface is hit, but at a radial distance beyond the 1mm aperture:
    // the trace fails, exactly as at a stop.
    let cam = camera(vec![elem(20.0, 2.0, 1.5, 1.0), elem(0.0, 0.0, 0.0, 5.0)]);
    let ray = Ray {
        o: Vec3 { x: fp(0.002), y: 0, z: fp(0.003) },
        d: Vec3 { x: 0, y: 0, z: fp(-1.0) },
    };
    assert_eq!(cam.trace_lenses_from_scene(&ray), None);
}

#[test]
fn mirrored_ray_traces_mirrored() {
    // Reflecting the film point and aim point about the y-z plane mirrors
    // the trace: same success, x components negated.
    let cam = camera(vec![elem(20.0, 2.0, 1.5, 10.0), elem(0.0, 0.0, 0.0, 5.0)]);
    let ray = Ray {
        o: Vec3 { x: fp(0.0003), y: 0, z: 0 },
        d: Vec3 { x: fp(0.05), y: fp(0.01), z: fp(1.0) },
    };
    let mirrored = Ray {
        o: Vec3 { x: -ray.o.x, y: ray.o.y, z: ray.o.z },
        d: Vec3 { x: -ray.d.x, y: ray.d.y, z: ray.d.z },
    };
    let out = cam.trace_lenses_from_film(&ray);
    let out_m = cam.trace_lenses_from_film(&mirrored);
    match (out, out_m) {
        (Some(a), Some(b)) => {
            assert_eq!(b.o.x, -a.o.x);
            assert_eq!(b.o.y, a.o.y);
            assert_eq!(b.o.z, a.o.z);
            assert_eq!(b.d.x, -a.d.x);
            assert_eq!(b.d.y, a.d.y);
            assert_eq!(b.d.z, a.d.z);
        }
        (None, None) => panic!("probe was expected to pass the lens system"),
        _ => panic!("mirror symmetry violated: one trace passed, the other failed"),
    }
}

#[test]
fn quadratic_exact_roots() {
    // t^2 - 3t + 2 has roots 1 and 2, returned in ascending order.
    assert_eq!(quadratic(fp(1.0), fp(-3.0), fp(2.0)), Some((fp(1.0), fp(2.0))));
    // t^2 + 1 has no real roots.
    assert_eq!(quadratic(fp(1.0), 0, fp(1.0)), None);
}

#[test]
fn refract_reports_total_internal_reflection() {
    // sin^2 of the incident angle is 0.64; with eta = 1.5 the transmitted
    // sin^2 would be 1.44 >= 1: no refracted direction exists.
    let wi = Vec3 { x: fp(0.8), y: 0, z: fp(0.6) };
    let n = Vec3 { x: 0, y: 0, z: fp(1.0) };
    assert_eq!(refract(&wi, &n, fp(1.5)), None);
}

#[test]
fn refract_with_unit_ratio_passes_straight() {
    // With an index ratio of 1 the transmitted ray continues along -wi.
    let wi = Vec3 { x: fp(0.8), y: 0, z: fp(0.6) };
    let n = Vec3 { x: 0, y: 0, z: fp(1.0) };
    let w = refract(&wi, &n, fp(1.0)).expect("no reflection at equal indices");
    assert_eq!(w, Vec3 { x: fp(-0.8), y: 0, z: fp(-0.6) });
}

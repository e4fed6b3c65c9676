//! The lens prescription and the camera that owns it.
//!
//! A prescription is an ordered, non-empty sequence of element records,
//! front (scene-facing) first, rear (film-facing) last. Records arrive as
//! flat quadruples of millimeter-scaled fixed-point values — curvature
//! radius, thickness, refractive index, aperture diameter — and are converted
//! to scene units (times 0.001) when the prescription is built.

use vstd::prelude::*;

use crate::fixed::{
    add_fp, div_fp, fp_add, fp_div, fp_mul, mul_fp, FP_MILLI, FP_TWO,
};
use crate::geometry::Bounds2;

verus! {

/// One physical surface of the lens stack. A zero curvature radius marks the
/// aperture stop; an eta of zero (or one) means vacuum on the film side.
#[derive(Clone, Copy, Debug, PartialEq, Eq, Structural)]
pub struct LensElementInterface {
    pub curvature_radius: i64,
    pub thickness: i64,
    pub eta: i64,
    pub aperture_radius: i64,
}

pub struct LensElementV {
    pub curvature_radius: int,
    pub thickness: int,
    pub eta: int,
    pub aperture_radius: int,
}

impl View for LensElementInterface {
    type V = LensElementV;

    open spec fn view(&self) -> LensElementV {
        LensElementV {
            curvature_radius: self.curvature_radius as int,
            thickness: self.thickness as int,
            eta: self.eta as int,
            aperture_radius: self.aperture_radius as int,
        }
    }
}

/// Fatal configuration errors, detected once while a camera is set up.
/// Per-ray outcomes (vignetting, total internal reflection) are never errors.
#[derive(Clone, Copy, Debug, PartialEq, Eq, Structural)]
pub enum LensError {
    /// The record stream is empty or not a whole number of quadruples.
    MalformedPrescription,
    /// A thick-lens calibration probe could not traverse the stack.
    CalibrationRayBlocked,
    /// The closed-form focus equation has a non-positive discriminant:
    /// the requested focus distance is too short for this lens stack.
    FocusDistanceTooShort,
    /// Bracket expansion around the closed-form seed failed to straddle the
    /// requested focus distance.
    FocusBracketNotFound,
}

/// The realistic camera: an immutable prescription, the film's physical
/// diagonal, shutter interval, the radiometric-weighting switch, and a cache
/// of exit-pupil bounds per film-radius bucket.
pub struct RealisticCamera {
    pub shutter_open: i64,
    pub shutter_close: i64,
    pub simple_weighting: bool,
    pub film_diagonal: i64,
    pub element_interfaces: Vec<LensElementInterface>,
    pub exit_pupil_bounds: Vec<Bounds2>,
}

pub struct RealisticCameraV {
    pub shutter_open: int,
    pub shutter_close: int,
    pub simple_weighting: bool,
    pub film_diagonal: int,
    pub elements: Seq<LensElementV>,
    pub pupil_cache: Seq<<Bounds2 as View>::V>,
}

impl View for RealisticCamera {
    type V = RealisticCameraV;

    open spec fn view(&self) -> RealisticCameraV {
        RealisticCameraV {
            shutter_open: self.shutter_open as int,
            shutter_close: self.shutter_close as int,
            simple_weighting: self.simple_weighting,
            film_diagonal: self.film_diagonal as int,
            elements: self.element_interfaces@.map_values(|e: LensElementInterface| e@),
            pupil_cache: self.exit_pupil_bounds@.map_values(|b: Bounds2| b@),
        }
    }
}

impl RealisticCamera {
    /// A prescription is usable once it holds at least one element.
    pub open spec fn wf(&self) -> bool {
        self@.elements.len() > 0
    }
}

/// The element built from one record quadruple. The user-supplied aperture
/// diameter replaces a stop record's diameter only when it does not exceed
/// the record's declared maximum; a larger request is clamped to that maximum.
pub open spec fn record_element(r0: int, r1: int, r2: int, r3: int, aperture_diameter: int)
    -> LensElementV {
    let diameter = if r0 == 0 && aperture_diameter <= r3 {
        aperture_diameter
    } else {
        r3
    };
    LensElementV {
        curvature_radius: fp_mul(r0, FP_MILLI as int),
        thickness: fp_mul(r1, FP_MILLI as int),
        eta: r2,
        aperture_radius: fp_div(fp_mul(diameter, FP_MILLI as int), FP_TWO as int),
    }
}

/// Whether the stop record at quadruple `j` clamps the requested diameter.
pub open spec fn record_clamped(data: Seq<i64>, aperture_diameter: int, j: int) -> bool {
    data[4 * j] == 0 && aperture_diameter > data[4 * j + 3] as int
}

/// The element sequence a record stream builds.
pub open spec fn elements_of(data: Seq<i64>, aperture_diameter: int) -> Seq<LensElementV> {
    Seq::new(
        (data.len() as int / 4) as nat,
        |j: int|
            record_element(
                data[4 * j] as int,
                data[4 * j + 1] as int,
                data[4 * j + 2] as int,
                data[4 * j + 3] as int,
                aperture_diameter,
            ),
    )
}

/// The quadruple indices, in order, whose requested aperture was clamped.
pub open spec fn clamped_records(data: Seq<i64>, aperture_diameter: int, k: int) -> Seq<usize>
    decreases k,
{
    if k <= 0 {
        Seq::empty()
    } else {
        let rest = clamped_records(data, aperture_diameter, k - 1);
        if record_clamped(data, aperture_diameter, k - 1) {
            rest.push((k - 1) as usize)
        } else {
            rest
        }
    }
}

pub open spec fn prescription_malformed(data: Seq<i64>) -> bool {
    data.len() == 0 || data.len() % 4 != 0
}

/// Builds the element stack from a flat record stream (quadruples of
/// millimeter-scaled values) and the user-requested aperture diameter.
/// Also reports which stop records clamped the request, so a caller can
/// surface the diagnostic; clamping itself is not an error.
pub fn build_element_interfaces(data: &Vec<i64>, aperture_diameter: i64) -> (r: Result<
    (Vec<LensElementInterface>, Vec<usize>),
    LensError,
>)
    ensures
        r is Err <==> prescription_malformed(data@),
        r is Err ==> r == Err::<(Vec<LensElementInterface>, Vec<usize>), LensError>(
            LensError::MalformedPrescription,
        ),
        r matches Ok((elems, clamped)) ==> {
            &&& elems@.map_values(|e: LensElementInterface| e@) == elements_of(
                data@,
                aperture_diameter as int,
            )
            &&& clamped@ == clamped_records(
                data@,
                aperture_diameter as int,
                data@.len() as int / 4,
            )
        },
{
    if data.len() == 0 || data.len() % 4 != 0 {
        return Err(LensError::MalformedPrescription);
    }
    let n_records: usize = data.len() / 4;
    let mut elems: Vec<LensElementInterface> = Vec::new();
    let mut clamped: Vec<usize> = Vec::new();
    let mut j: usize = 0;
    while j < n_records
        invariant
            n_records == data@.len() / 4,
            data@.len() % 4 == 0,
            data@.len() > 0,
            data@.len() <= usize::MAX,
            j <= n_records,
            elems@.map_values(|e: LensElementInterface| e@) == elements_of(
                data@,
                aperture_diameter as int,
            ).take(j as int),
            clamped@ == clamped_records(data@, aperture_diameter as int, j as int),
        decreases n_records - j,
    {
        proof {
            vstd::arithmetic::div_mod::lemma_fundamental_div_mod(data@.len() as int, 4);
            assert(4 * (j as int) + 3 < data@.len());
        }
        let r0: i64 = data[4 * j];
        let r1: i64 = data[4 * j + 1];
        let r2: i64 = data[4 * j + 2];
        let r3: i64 = data[4 * j + 3];
        let is_stop: bool = r0 == 0;
        let mut diameter: i64 = r3;
        if is_stop {
            if aperture_diameter > r3 {
                clamped.push(j);
            } else {
                diameter = aperture_diameter;
            }
        }
        let elem = LensElementInterface {
            curvature_radius: mul_fp(r0, FP_MILLI),
            thickness: mul_fp(r1, FP_MILLI),
            eta: r2,
            aperture_radius: div_fp(mul_fp(diameter, FP_MILLI), FP_TWO),
        };
        let ghost pre = elems@;
        elems.push(elem);
        proof {
            let f = |e: LensElementInterface| e@;
            let target = elements_of(data@, aperture_diameter as int);
            assert(pre.map_values(f).len() == pre.len());
            assert(target.take(j as int).len() == j as int);
            assert(pre.len() == j as int);
            assert(elems@.len() == j as int + 1);
            assert(elem@ == target[j as int]);
            assert forall|i: int| 0 <= i < j as int + 1 implies elems@.map_values(f)[i]
                == target.take(j as int + 1)[i] by {
                assert(elems@.map_values(f)[i] == f(elems@[i]));
                if i < j as int {
                    assert(pre.map_values(f)[i] == target.take(j as int)[i]);
                }
            }
            assert(elems@.map_values(f) =~= target.take(j as int + 1));
        }
        j = j + 1;
    }
    proof {
        assert(elements_of(data@, aperture_diameter as int).take(n_records as int)
            =~= elements_of(data@, aperture_diameter as int));
    }
    Ok((elems, clamped))
}

/// The axial distance accumulated over the first `k` element thicknesses.
pub open spec fn front_z_partial(elems: Seq<LensElementV>, k: int) -> int
    decreases k,
{
    if k <= 0 {
        0
    } else {
        fp_add(front_z_partial(elems, k - 1), elems[k - 1].thickness)
    }
}

pub open spec fn lens_front_z_spec(elems: Seq<LensElementV>) -> int {
    front_z_partial(elems, elems.len() as int)
}

pub open spec fn lens_rear_z_spec(elems: Seq<LensElementV>) -> int {
    elems.last().thickness
}

pub open spec fn rear_element_radius_spec(elems: Seq<LensElementV>) -> int {
    elems.last().aperture_radius
}

impl RealisticCamera {
    /// Axial distance from the rear lens vertex to the film: the rear
    /// element's thickness.
    pub fn lens_rear_z(&self) -> (r: i64)
        requires
            self.wf(),
        ensures
            r as int == lens_rear_z_spec(self@.elements),
    {
        self.element_interfaces[self.element_interfaces.len() - 1].thickness
    }

    /// Axial distance from the front lens vertex to the film: the saturating
    /// fixed-point sum of all element thicknesses.
    pub fn lens_front_z(&self) -> (r: i64)
        ensures
            r as int == lens_front_z_spec(self@.elements),
    {
        let mut z_sum: i64 = 0;
        let mut i: usize = 0;
        let n: usize = self.element_interfaces.len();
        while i < n
            invariant
                n == self@.elements.len(),
                i <= n,
                z_sum as int == front_z_partial(self@.elements, i as int),
            decreases n - i,
        {
            z_sum = add_fp(z_sum, self.element_interfaces[i].thickness);
            i = i + 1;
        }
        z_sum
    }

    /// Aperture radius of the rear (film-facing) element.
    pub fn rear_element_radius(&self) -> (r: i64)
        requires
            self.wf(),
        ensures
            r as int == rear_element_radius_spec(self@.elements),
    {
        self.element_interfaces[self.element_interfaces.len() - 1].aperture_radius
    }
}

} // verus!

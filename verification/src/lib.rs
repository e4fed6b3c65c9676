//! Optical core of a physically based camera model.
//!
//! The library traces rays through a stack of spherical lens elements and an
//! aperture stop, computes thick-lens cardinal points and an autofocus film
//! distance, and estimates the exit pupil of the lens system by Monte-Carlo
//! sampling of the rear element.
//!
//! All scalar quantities are exact fixed-point numbers (`i64` values scaled by
//! [`fixed::SCALE`]), so every computation is a deterministic mathematical
//! function of its inputs and each public function carries an exact contract.

pub mod fixed;
pub mod geometry;
pub mod lens;
pub mod trace;
pub mod focus;
pub mod pupil;
pub mod laws;

//! Small fixed-size linear algebra: a one-byte binary angle with table-driven
//! trigonometry, vectors of two to four components, and 3x3 / 4x4 matrices.
//!
//! Everything here is integer arithmetic. Fractional quantities (sines,
//! cosines, radians) are carried as fixed-point integers counted in units of
//! `2^-29`; see [`tables::UNIT`].

pub mod angle;
pub mod matrices;
pub mod tables;
pub mod traits;
pub mod vectors;

pub use angle::Angle;

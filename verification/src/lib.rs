//! Loader for posed-image datasets that turns camera images plus camera
//! poses into dense grids of per-pixel ray samples (origins, directions and
//! distances along each ray), together with a prefix/suffix train-test split
//! and access-time assembly of sample positions.
//!
//! Every color channel and every geometric coordinate is stored as the raw
//! 32-bit pattern of an IEEE-754 single-precision value; the [`scalar`]
//! module names the arithmetic carried out on those patterns.

pub mod scalar;
pub mod grids;
pub mod dataset;

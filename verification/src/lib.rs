//! Five-number summaries (fences, quartiles, median) for box-and-whisker
//! plots, computed from integer samples under three interpolation policies.
//!
//! Every value the three policies can produce on integer input is an exact
//! multiple of 1/200, so the library represents each result as its numerator
//! over the fixed denominator 200 and computes it exactly in `i128`
//! arithmetic.  A caller that wants floating-point output divides by 200
//! itself, outside the verified code.

pub mod laws;
pub mod model;
pub mod sorting;
pub mod summary;

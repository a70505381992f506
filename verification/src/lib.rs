//! Probability density, cumulative distribution and quantile functions for the
//! Normal and Student's t distributions, computed over IEEE-754
//! double-precision values represented by their 64-bit patterns.
//!
//! The raw transcendental primitives (exp, ln, sqrt, sin, cos, atan, pow) and
//! the double-precision arithmetic itself are supplied by the platform through
//! the [`host::HostMath`] capability trait; everything built on top of them —
//! parameter validation, branch selection, series and polynomial evaluation —
//! is verified against spec-level models of those primitives.

use vstd::prelude::*;

pub mod bits;
pub mod erf;
pub mod gamma;
pub mod host;
pub mod normal;
pub mod students_t;

verus! {

pub use erf::inverse_erf;
pub use host::HostMath;
pub use normal::Normal;
pub use students_t::StudentsT;

} // verus!

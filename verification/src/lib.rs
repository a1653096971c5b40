//! Integer kernel of a minimal, dependency-free math library.
//!
//! The library's floating-point entry points (trigonometry, exponentials,
//! rounding) rest on two kinds of integer work that can be stated and checked
//! exactly: comparisons and clamping on fixed-width integers, and the
//! bit-pattern manipulations at the heart of the binary32 approximation
//! routines (the reciprocal-square-root and cube-root initial guesses,
//! the mantissa/exponent decomposition used by the logarithm, and the
//! power-of-two shift used by the base-2 exponential). Those live here,
//! each with a contract that pins its result down.

pub mod ieee;
pub mod util;

pub use util::clampi;
pub use util::clampu;
pub use util::maxi;
pub use util::maxu;
pub use util::mini;
pub use util::minu;

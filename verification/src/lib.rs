//! Exact semantics of the numeric builtin library of an audio-synthesis
//! compiler: unit/frequency conversion, clamping, equal-power panning,
//! lane combination, linear interpolation, modular sequence selection and
//! sparse-array reduction, all over two-lane values tagged with a physical
//! form. The floating-point intrinsics of the target (power, sine, square
//! root) are supplied by the caller; everything around them is verified.

pub mod frequency;
pub mod functions;
pub mod laws;
pub mod scalar;
pub mod value;

//! Bridging layer for an external GPU multi-scalar-multiplication (MSM)
//! accelerator.
//!
//! The accelerator computes `sum_i scalar_i * point_i` over an elliptic-curve
//! group from flat point and scalar buffers.  This crate is the adaptation
//! layer in front of it: it reconciles the caller-side encodings of points and
//! scalars with the byte layout the accelerator expects, checks the shape
//! invariants that must hold before the boundary is crossed (equal-length
//! buffers, a declared per-point stride that matches the reference layout),
//! and maps the accelerator's (code, message) outcome back into a typed
//! result.  The accelerator itself, the curve arithmetic, and the actual
//! foreign call are outside this crate; an unverified shell drives them from
//! the plans built here.

pub mod bench;
pub mod dispatch;
pub mod handle;
pub mod laws;
pub mod layout;
pub mod outcome;

pub use bench::BenchPlan;
pub use bench::ProbeElement;
pub use bench::sppark_benchmark_point_mixed_add;
pub use bench::sppark_benchmark_scalar_mul;
pub use dispatch::CallDescriptor;
pub use dispatch::ErasedCall;
pub use dispatch::ErasedPlan;
pub use dispatch::MsmPlan;
pub use dispatch::complete_erased;
pub use dispatch::complete_projective;
pub use dispatch::multi_scalar_mult;
pub use dispatch::multi_scalar_mult_arkworks;
pub use dispatch::multi_scalar_mult_halo2;
pub use handle::FFITraitObject;
pub use layout::FieldElement;
pub use layout::PointAffine;
pub use layout::PointAffineExt;
pub use layout::PointProjective;
pub use layout::Scalar;
pub use outcome::DeviceOutcome;
pub use outcome::MsmError;

//! The three MSM entry points and the outcome mapping.
//!
//! Each entry point is a one-shot, synchronous dispatch split into two
//! halves around the single boundary crossing.  The first half — the
//! functions here named after the entry points — checks the shape invariants
//! and either refuses the request, answers it immediately (an empty request
//! yields the identity point without any crossing), or builds a call
//! descriptor saying exactly what the unverified shell must hand the
//! accelerator: the element count, the per-element strides, and, for the
//! type-erased path, the borrowed handles and the device index.  The second
//! half — [`complete_projective`] and [`complete_erased`] — turns the
//! accelerator's (code, message) outcome into the caller's result: the
//! accelerator's point passed through bit-identically on success, a
//! `DeviceError` carrying the accelerator's message otherwise.
//!
//! Every function here is deterministic: its contract pins the result as a
//! function of the arguments alone, which is what makes the two-call and
//! device-placement laws in [`crate::laws`] provable.

use vstd::prelude::*;

use crate::handle::FFITraitObject;
use crate::layout::PointAffine;
use crate::layout::PointAffineExt;
use crate::layout::PointProjective;
use crate::layout::Scalar;
use crate::layout::identity_projective;
use crate::layout::POINT_AFFINE_BYTES;
use crate::layout::POINT_AFFINE_EXT_BYTES;
use crate::layout::SCALAR_BYTES;
use crate::outcome::DeviceOutcome;
use crate::outcome::MsmError;

verus! {

/// What one typed boundary crossing must hand the accelerator: how many
/// elements to read from each buffer and the stride of each.  The shell
/// passes the caller's buffers themselves; nothing is copied.
#[derive(Clone, Copy, Debug, PartialEq, Eq, Structural)]
pub struct CallDescriptor {
    /// Elements to read from each of the point and scalar buffers.
    pub npoints: usize,
    /// Bytes from one point to the next.
    pub point_size: usize,
    /// Bytes from one scalar to the next.
    pub scalar_size: usize,
}

/// The decision a typed entry point hands the shell: answer the caller at
/// once, or cross the boundary exactly once as the descriptor says.
#[derive(Clone, Copy, Debug, PartialEq, Eq, Structural)]
pub enum MsmPlan {
    /// No crossing: `result` is the complete answer.  Only an empty request
    /// is answered this way, with the identity point.
    Immediate { result: PointProjective },
    /// Cross once, as `call` says, then map the outcome with
    /// [`complete_projective`].
    Cross { call: CallDescriptor },
}

/// What one type-erased boundary crossing must hand the accelerator.  The
/// handles stand for the first element of the output, point and scalar
/// buffers; the accelerator walks `npoints` contiguous elements of
/// `point_size` bytes from the point handle.  The caller's buffers must be
/// contiguous and stay valid until the call returns.
#[derive(Clone, Copy, Debug, PartialEq, Eq, Structural)]
pub struct ErasedCall {
    /// Where the accelerator writes the aggregated point.
    pub out: FFITraitObject,
    /// First element of the point buffer.
    pub points: FFITraitObject,
    /// First element of the scalar buffer.
    pub scalars: FFITraitObject,
    /// Elements to read from each buffer.
    pub npoints: usize,
    /// Bytes from one point to the next, as the caller declared.
    pub point_size: usize,
    /// Which accelerator device runs the call.  A placement hint only: it
    /// never changes what is computed.
    pub device: usize,
}

/// The decision the type-erased entry point hands the shell.
#[derive(Clone, Copy, Debug, PartialEq, Eq, Structural)]
pub enum ErasedPlan {
    /// No crossing.  The caller initialises its output to the identity
    /// before dispatching, so an empty request is already answered.
    Immediate,
    /// Cross once, as `call` says, then map the outcome with
    /// [`complete_erased`].
    Cross { call: ErasedCall },
}

/// The native entry point's decision as a function of the request shape.
pub open spec fn native_plan(points: Seq<PointAffine>, scalars: Seq<Scalar>) -> Result<
    MsmPlan,
    MsmError,
> {
    if points.len() != scalars.len() {
        Err(
            MsmError::LengthMismatch {
                points_len: points.len() as usize,
                scalars_len: scalars.len() as usize,
            },
        )
    } else if points.len() == 0 {
        Ok(MsmPlan::Immediate { result: identity_projective() })
    } else {
        Ok(
            MsmPlan::Cross {
                call: CallDescriptor {
                    npoints: points.len() as usize,
                    point_size: POINT_AFFINE_BYTES,
                    scalar_size: SCALAR_BYTES,
                },
            },
        )
    }
}

/// The generic entry point's decision as a function of the request shape
/// and the caller's declared per-point size.
pub open spec fn generic_plan(
    points: Seq<PointAffineExt>,
    scalars: Seq<Scalar>,
    declared_point_size: usize,
) -> Result<MsmPlan, MsmError> {
    if points.len() != scalars.len() {
        Err(
            MsmError::LengthMismatch {
                points_len: points.len() as usize,
                scalars_len: scalars.len() as usize,
            },
        )
    } else if declared_point_size != POINT_AFFINE_EXT_BYTES {
        Err(
            MsmError::LayoutMismatch {
                declared: declared_point_size,
                expected: POINT_AFFINE_EXT_BYTES,
            },
        )
    } else if points.len() == 0 {
        Ok(MsmPlan::Immediate { result: identity_projective() })
    } else {
        Ok(
            MsmPlan::Cross {
                call: CallDescriptor {
                    npoints: points.len() as usize,
                    point_size: declared_point_size,
                    scalar_size: SCALAR_BYTES,
                },
            },
        )
    }
}

/// The type-erased entry point's decision as a function of the request
/// shape.  The handles, the declared size and the device index are carried
/// through untouched; this layer cannot check a stride it has no reference
/// type for, so the layout contract rests with the caller here.
pub open spec fn erased_plan(
    out: FFITraitObject,
    points: FFITraitObject,
    npoints: usize,
    scalars: FFITraitObject,
    nscalars: usize,
    point_size: usize,
    gpu_idx: usize,
) -> Result<ErasedPlan, MsmError> {
    if npoints != nscalars {
        Err(MsmError::LengthMismatch { points_len: npoints, scalars_len: nscalars })
    } else if npoints == 0 {
        Ok(ErasedPlan::Immediate)
    } else {
        Ok(
            ErasedPlan::Cross {
                call: ErasedCall {
                    out,
                    points,
                    scalars,
                    npoints,
                    point_size,
                    device: gpu_idx,
                },
            },
        )
    }
}

/// What the caller gets back from a typed crossing, as a function of the
/// accelerator's outcome and the point it produced.
pub open spec fn complete_projective_spec(
    outcome: DeviceOutcome,
    device_result: PointProjective,
) -> Result<PointProjective, MsmError> {
    if outcome.code == 0 {
        Ok(device_result)
    } else {
        Err(MsmError::DeviceError { code: outcome.code, message: outcome.message })
    }
}

/// What the caller gets back from a type-erased crossing, whose result was
/// written through the output handle and is not this layer's to return.
pub open spec fn complete_erased_spec(outcome: DeviceOutcome) -> Result<(), MsmError> {
    if outcome.code == 0 {
        Ok(())
    } else {
        Err(MsmError::DeviceError { code: outcome.code, message: outcome.message })
    }
}

/// Native MSM dispatch: points and scalars in the fixed reference encoding.
///
/// Refuses a request whose buffers disagree in length, before any crossing;
/// answers an empty request with the identity point, again without any
/// crossing; and for everything else directs the shell to cross once with
/// the full element count and the native strides.
pub fn multi_scalar_mult(points: &Vec<PointAffine>, scalars: &Vec<Scalar>) -> (r: Result<
    MsmPlan,
    MsmError,
>)
    ensures
        r == native_plan(points@, scalars@),
        points@.len() != scalars@.len() <==> r is Err,
        r matches Ok(MsmPlan::Cross { call }) ==> call.npoints == points@.len(),
{
    let npoints = points.len();
    if npoints != scalars.len() {
        return Err(MsmError::LengthMismatch { points_len: npoints, scalars_len: scalars.len() });
    }
    if npoints == 0 {
        return Ok(MsmPlan::Immediate { result: PointProjective::identity() });
    }
    Ok(
        MsmPlan::Cross {
            call: CallDescriptor {
                npoints,
                point_size: POINT_AFFINE_BYTES,
                scalar_size: SCALAR_BYTES,
            },
        },
    )
}

/// Generic MSM dispatch: points in the extended encoding of an arbitrary
/// curve library, declared layout-identical to the reference type.
///
/// On top of the native checks, the declared per-point size is held against
/// the reference layout: the accelerator trusts the stride it is given, and
/// a wrong one would silently corrupt the result rather than error, so a
/// mismatch is refused here, before any crossing.
pub fn multi_scalar_mult_arkworks(
    points: &Vec<PointAffineExt>,
    scalars: &Vec<Scalar>,
    declared_point_size: usize,
) -> (r: Result<MsmPlan, MsmError>)
    ensures
        r == generic_plan(points@, scalars@, declared_point_size),
        r is Ok <==> points@.len() == scalars@.len() && declared_point_size
            == POINT_AFFINE_EXT_BYTES,
        r matches Ok(MsmPlan::Cross { call }) ==> call.npoints == points@.len()
            && call.point_size == POINT_AFFINE_EXT_BYTES,
{
    let npoints = points.len();
    if npoints != scalars.len() {
        return Err(MsmError::LengthMismatch { points_len: npoints, scalars_len: scalars.len() });
    }
    if declared_point_size != POINT_AFFINE_EXT_BYTES {
        return Err(
            MsmError::LayoutMismatch {
                declared: declared_point_size,
                expected: POINT_AFFINE_EXT_BYTES,
            },
        );
    }
    if npoints == 0 {
        return Ok(MsmPlan::Immediate { result: PointProjective::identity() });
    }
    Ok(
        MsmPlan::Cross {
            call: CallDescriptor {
                npoints,
                point_size: declared_point_size,
                scalar_size: SCALAR_BYTES,
            },
        },
    )
}

/// Type-erased MSM dispatch: the buffers arrive as opaque handles to their
/// first elements, with explicit counts, a declared per-point size, and the
/// index of the device the call is pinned to.
///
/// The caller initialises its output to the identity before dispatching, so
/// an empty request needs no crossing and no write.  The handles must stay
/// valid until the crossing returns; they are threaded through untouched
/// and never retained.
pub fn multi_scalar_mult_halo2(
    out: FFITraitObject,
    points: FFITraitObject,
    npoints: usize,
    scalars: FFITraitObject,
    nscalars: usize,
    point_size: usize,
    gpu_idx: usize,
) -> (r: Result<ErasedPlan, MsmError>)
    ensures
        r == erased_plan(out, points, npoints, scalars, nscalars, point_size, gpu_idx),
        r is Ok <==> npoints == nscalars,
        r matches Ok(ErasedPlan::Cross { call }) ==> call == (ErasedCall {
            out,
            points,
            scalars,
            npoints,
            point_size,
            device: gpu_idx,
        }),
{
    if npoints != nscalars {
        return Err(MsmError::LengthMismatch { points_len: npoints, scalars_len: nscalars });
    }
    if npoints == 0 {
        return Ok(ErasedPlan::Immediate);
    }
    Ok(
        ErasedPlan::Cross {
            call: ErasedCall { out, points, scalars, npoints, point_size, device: gpu_idx },
        },
    )
}

/// Maps a typed crossing's outcome back to the caller: the accelerator's
/// point, bit-identical, when the code is zero; a fatal `DeviceError`
/// carrying the accelerator's message otherwise, in which case the point
/// buffer was undefined and is dropped unread.
pub fn complete_projective(outcome: DeviceOutcome, device_result: PointProjective) -> (r: Result<
    PointProjective,
    MsmError,
>)
    ensures
        r == complete_projective_spec(outcome, device_result),
        outcome.code == 0 ==> r == Ok::<PointProjective, MsmError>(device_result),
        outcome.code != 0 ==> r is Err,
{
    if outcome.code == 0 {
        Ok(device_result)
    } else {
        Err(MsmError::DeviceError { code: outcome.code, message: outcome.message })
    }
}

/// Maps a type-erased crossing's outcome back to the caller.  On success
/// the aggregated point was already written through the output handle; on
/// failure that buffer is undefined and the caller must not read it.
pub fn complete_erased(outcome: DeviceOutcome) -> (r: Result<(), MsmError>)
    ensures
        r == complete_erased_spec(outcome),
        outcome.code == 0 <==> r is Ok,
{
    if outcome.code == 0 {
        Ok(())
    } else {
        Err(MsmError::DeviceError { code: outcome.code, message: outcome.message })
    }
}

} // verus!

//! The laws of the layer, stated and proved over the entry points'
//! specification functions.
//!
//! Every entry point's contract pins its result as a function of its
//! arguments alone (`native_plan`, `generic_plan`, `erased_plan`,
//! `complete_projective_spec`, `complete_erased_spec`), so each law below
//! holds of every call that meets that contract.

use vstd::prelude::*;

use crate::dispatch::ErasedCall;
use crate::dispatch::ErasedPlan;
use crate::dispatch::MsmPlan;
use crate::dispatch::complete_erased_spec;
use crate::dispatch::complete_projective_spec;
use crate::dispatch::erased_plan;
use crate::dispatch::generic_plan;
use crate::dispatch::native_plan;
use crate::handle::FFITraitObject;
use crate::layout::PointAffine;
use crate::layout::PointAffineExt;
use crate::layout::PointProjective;
use crate::layout::Scalar;
use crate::layout::identity_projective;
use crate::layout::POINT_AFFINE_EXT_BYTES;
use crate::outcome::DeviceOutcome;
use crate::outcome::MsmError;

verus! {

/// A length disagreement is refused by every entry point before any
/// boundary crossing: whenever the two buffers differ in length, each plan
/// is a `LengthMismatch` error carrying both lengths, and in particular no
/// `Cross` plan exists, so the shell never reaches the accelerator.
pub proof fn lemma_length_mismatch_is_fatal_everywhere(
    points: Seq<PointAffine>,
    gpoints: Seq<PointAffineExt>,
    scalars: Seq<Scalar>,
    declared_point_size: usize,
    out: FFITraitObject,
    hpoints: FFITraitObject,
    npoints: usize,
    hscalars: FFITraitObject,
    nscalars: usize,
    gpu_idx: usize,
)
    requires
        points.len() != scalars.len(),
        gpoints.len() != scalars.len(),
        npoints != nscalars,
    ensures
        native_plan(points, scalars) == Err::<MsmPlan, MsmError>(
            MsmError::LengthMismatch {
                points_len: points.len() as usize,
                scalars_len: scalars.len() as usize,
            },
        ),
        generic_plan(gpoints, scalars, declared_point_size) == Err::<MsmPlan, MsmError>(
            MsmError::LengthMismatch {
                points_len: gpoints.len() as usize,
                scalars_len: scalars.len() as usize,
            },
        ),
        erased_plan(out, hpoints, npoints, hscalars, nscalars, declared_point_size, gpu_idx)
            == Err::<ErasedPlan, MsmError>(
            MsmError::LengthMismatch { points_len: npoints, scalars_len: nscalars },
        ),
{
}

/// Dispatch is deterministic: two results of the native entry point on the
/// same buffers are equal.  Its contract pins each result to
/// `native_plan`, so two calls with bit-identical inputs decide alike.
pub proof fn lemma_native_dispatch_deterministic(
    points: Seq<PointAffine>,
    scalars: Seq<Scalar>,
    r1: Result<MsmPlan, MsmError>,
    r2: Result<MsmPlan, MsmError>,
)
    requires
        r1 == native_plan(points, scalars),
        r2 == native_plan(points, scalars),
    ensures
        r1 == r2,
{
}

/// The generic entry point decides alike on bit-identical inputs, by the
/// same argument as the native one.
pub proof fn lemma_generic_dispatch_deterministic(
    points: Seq<PointAffineExt>,
    scalars: Seq<Scalar>,
    declared_point_size: usize,
    r1: Result<MsmPlan, MsmError>,
    r2: Result<MsmPlan, MsmError>,
)
    requires
        r1 == generic_plan(points, scalars, declared_point_size),
        r2 == generic_plan(points, scalars, declared_point_size),
    ensures
        r1 == r2,
{
}

/// The type-erased entry point decides alike on bit-identical inputs.
pub proof fn lemma_erased_dispatch_deterministic(
    out: FFITraitObject,
    points: FFITraitObject,
    npoints: usize,
    scalars: FFITraitObject,
    nscalars: usize,
    point_size: usize,
    gpu_idx: usize,
    r1: Result<ErasedPlan, MsmError>,
    r2: Result<ErasedPlan, MsmError>,
)
    requires
        r1 == erased_plan(out, points, npoints, scalars, nscalars, point_size, gpu_idx),
        r2 == erased_plan(out, points, npoints, scalars, nscalars, point_size, gpu_idx),
    ensures
        r1 == r2,
{
}

/// Outcome mapping is deterministic as well: two results of
/// `complete_projective` on the same outcome and device point are equal,
/// so a successful result is the device's point both times, bit for bit.
pub proof fn lemma_completion_deterministic(
    outcome: DeviceOutcome,
    device_result: PointProjective,
    r1: Result<PointProjective, MsmError>,
    r2: Result<PointProjective, MsmError>,
)
    requires
        r1 == complete_projective_spec(outcome, device_result),
        r2 == complete_projective_spec(outcome, device_result),
    ensures
        r1 == r2,
        outcome.code == 0 ==> r1 == Ok::<PointProjective, MsmError>(device_result),
{
}

/// The type-erased plan with its device index replaced by zero: the part
/// of the decision that is not placement.
pub open spec fn erased_plan_payload(r: Result<ErasedPlan, MsmError>) -> Result<
    ErasedPlan,
    MsmError,
> {
    match r {
        Ok(ErasedPlan::Cross { call }) => Ok(
            ErasedPlan::Cross {
                call: ErasedCall {
                    out: call.out,
                    points: call.points,
                    scalars: call.scalars,
                    npoints: call.npoints,
                    point_size: call.point_size,
                    device: 0,
                },
            },
        ),
        _ => r,
    }
}

/// The device index is a placement hint only: for identical logical inputs
/// dispatched to two different devices, the decisions agree on everything
/// but which device runs the call — same refusal, same short-circuit, same
/// handles, count and stride.  Together with the accelerator's own
/// contract of computing the same sum on every device, this is what makes
/// results device-invariant.
pub proof fn lemma_device_index_is_placement_only(
    out: FFITraitObject,
    points: FFITraitObject,
    npoints: usize,
    scalars: FFITraitObject,
    nscalars: usize,
    point_size: usize,
    dev_a: usize,
    dev_b: usize,
)
    ensures
        erased_plan_payload(erased_plan(out, points, npoints, scalars, nscalars, point_size, dev_a))
            == erased_plan_payload(
            erased_plan(out, points, npoints, scalars, nscalars, point_size, dev_b),
        ),
        erased_plan(out, points, npoints, scalars, nscalars, point_size, dev_a) is Ok
            <==> erased_plan(out, points, npoints, scalars, nscalars, point_size, dev_b) is Ok,
{
}

/// An empty request is answered at once, with the identity point and
/// without any boundary crossing, by each adapter whose buffers both have
/// length zero.
pub proof fn lemma_empty_request_short_circuits(
    points: Seq<PointAffine>,
    gpoints: Seq<PointAffineExt>,
    scalars: Seq<Scalar>,
    out: FFITraitObject,
    hpoints: FFITraitObject,
    hscalars: FFITraitObject,
    point_size: usize,
    gpu_idx: usize,
)
    requires
        points.len() == 0,
        gpoints.len() == 0,
        scalars.len() == 0,
    ensures
        native_plan(points, scalars) == Ok::<MsmPlan, MsmError>(
            MsmPlan::Immediate { result: identity_projective() },
        ),
        generic_plan(gpoints, scalars, POINT_AFFINE_EXT_BYTES) == Ok::<MsmPlan, MsmError>(
            MsmPlan::Immediate { result: identity_projective() },
        ),
        erased_plan(out, hpoints, 0, hscalars, 0, point_size, gpu_idx) == Ok::<
            ErasedPlan,
            MsmError,
        >(ErasedPlan::Immediate),
{
}

/// The generic adapter's layout guard: a declared per-point size that does
/// not match the reference layout is refused before any crossing, whatever
/// the buffers hold, so a wrong stride can never reach the accelerator
/// through this adapter.
pub proof fn lemma_layout_guard(
    points: Seq<PointAffineExt>,
    scalars: Seq<Scalar>,
    declared_point_size: usize,
)
    requires
        points.len() == scalars.len(),
        declared_point_size != POINT_AFFINE_EXT_BYTES,
    ensures
        generic_plan(points, scalars, declared_point_size) == Err::<MsmPlan, MsmError>(
            MsmError::LayoutMismatch {
                declared: declared_point_size,
                expected: POINT_AFFINE_EXT_BYTES,
            },
        ),
{
}

/// What crosses the boundary is exactly the caller's request: a native
/// plan that crosses carries the buffers' common length and nothing else
/// decides the crossing, and on a zero outcome the caller receives the
/// accelerator's point unchanged.  The sum itself is the accelerator's
/// contract, outside this layer.
pub proof fn lemma_crossing_passes_request_through(
    points: Seq<PointAffine>,
    scalars: Seq<Scalar>,
    outcome: DeviceOutcome,
    device_result: PointProjective,
)
    requires
        points.len() == scalars.len(),
        0 < points.len() <= usize::MAX,
        outcome.code == 0,
    ensures
        native_plan(points, scalars) matches Ok(MsmPlan::Cross { call }) && call.npoints
            == points.len(),
        complete_projective_spec(outcome, device_result) == Ok::<PointProjective, MsmError>(
            device_result,
        ),
        complete_erased_spec(outcome) == Ok::<(), MsmError>(()),
{
}

} // verus!

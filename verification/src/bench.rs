//! The two timing probes.
//!
//! Each probe hands the accelerator a handle to one representative element
//! of a buffer, together with loop and repetition counts, and returns
//! nothing: they are a timing harness only, not part of the MSM contract.
//! Which element is probed is an explicit choice: the first element is the
//! convention used everywhere else in this layer and the default; probing
//! the second element is kept available as a configuration for accelerators
//! that expect it.  A probe of an element the buffer does not have is
//! refused outright instead of reading out of bounds.

use vstd::prelude::*;

use crate::layout::Scalar;

verus! {

/// Which element of the buffer the probe hands the accelerator.
#[derive(Clone, Copy, Debug, PartialEq, Eq, Structural)]
pub enum ProbeElement {
    /// Probe the first element — the same first-element-plus-count
    /// convention the MSM entry points use.
    First,
    /// Probe the second element, for an accelerator that expects the probe
    /// one stride in.
    Second,
}

/// What one probe crossing must hand the accelerator: the index of the
/// element to take the handle of, and the two timing counts, passed through
/// unchanged.
#[derive(Clone, Copy, Debug, PartialEq, Eq, Structural)]
pub struct BenchPlan {
    /// Index into the caller's buffer of the element to probe.
    pub element_index: usize,
    /// How many iterations one timed loop runs.
    pub loop_times: usize,
    /// How many times the timed loop is repeated.
    pub repeat_times: usize,
}

/// The buffer index a probe choice stands for.
pub open spec fn probe_offset(probe: ProbeElement) -> usize {
    match probe {
        ProbeElement::First => 0,
        ProbeElement::Second => 1,
    }
}

/// A probe's decision as a function of the buffer length and the choice of
/// element: a plan for the chosen index when the buffer has it, nothing
/// when it does not.
pub open spec fn bench_plan(
    count: nat,
    probe: ProbeElement,
    loop_times: usize,
    repeat_times: usize,
) -> Option<BenchPlan> {
    if (probe_offset(probe) as nat) < count {
        Some(BenchPlan { element_index: probe_offset(probe), loop_times, repeat_times })
    } else {
        None
    }
}

/// Scalar-multiplication timing probe.  Decides which scalar the shell
/// hands the accelerator, or refuses when the buffer is too short for the
/// chosen element; the loop and repetition counts pass through unchanged.
pub fn sppark_benchmark_scalar_mul(
    scalars: &Vec<Scalar>,
    probe: ProbeElement,
    loop_times: usize,
    repeat_times: usize,
) -> (r: Option<BenchPlan>)
    ensures
        r == bench_plan(scalars@.len(), probe, loop_times, repeat_times),
        r is Some <==> (probe_offset(probe) as nat) < scalars@.len(),
        r matches Some(plan) ==> plan.element_index < scalars@.len(),
{
    let element_index: usize = match probe {
        ProbeElement::First => 0,
        ProbeElement::Second => 1,
    };
    if element_index < scalars.len() {
        Some(BenchPlan { element_index, loop_times, repeat_times })
    } else {
        None
    }
}

/// Point mixed-addition timing probe.  The caller's point type is opaque
/// here, so only the buffer length comes in; the decision is the same as
/// the scalar probe's.
pub fn sppark_benchmark_point_mixed_add(
    npoints: usize,
    probe: ProbeElement,
    loop_times: usize,
    repeat_times: usize,
) -> (r: Option<BenchPlan>)
    ensures
        r == bench_plan(npoints as nat, probe, loop_times, repeat_times),
        r is Some <==> probe_offset(probe) < npoints,
        r matches Some(plan) ==> plan.element_index < npoints,
{
    let element_index: usize = match probe {
        ProbeElement::First => 0,
        ProbeElement::Second => 1,
    };
    if element_index < npoints {
        Some(BenchPlan { element_index, loop_times, repeat_times })
    } else {
        None
    }
}

} // verus!

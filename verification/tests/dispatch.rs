// Shape checks, error mapping and invariance of the three MSM entry points.

use msm_bridge::DeviceOutcome;
use msm_bridge::ErasedPlan;
use msm_bridge::FFITraitObject;
use msm_bridge::FieldElement;
use msm_bridge::MsmError;
use msm_bridge::MsmPlan;
use msm_bridge::PointAffine;
use msm_bridge::PointAffineExt;
use msm_bridge::PointProjective;
use msm_bridge::Scalar;
use msm_bridge::complete_erased;
use msm_bridge::complete_projective;
use msm_bridge::multi_scalar_mult;
use msm_bridge::multi_scalar_mult_arkworks;
use msm_bridge::multi_scalar_mult_halo2;

fn fe(v: u64) -> FieldElement {
    FieldElement { l0: v, l1: 0, l2: 0, l3: 0, l4: 0, l5: 0 }
}

fn pt(x: u64, y: u64) -> PointAffine {
    PointAffine { x: fe(x), y: fe(y) }
}

fn pt_ext(x: u64, y: u64) -> PointAffineExt {
    PointAffineExt { x: fe(x), y: fe(y), infinity: false }
}

fn sc(k: u64) -> Scalar {
    Scalar { l0: k, l1: 0, l2: 0, l3: 0 }
}

#[test]
fn native_length_mismatch_is_refused_without_crossing() {
    let points = vec![pt(1, 2), pt(3, 4)];
    let scalars = vec![sc(5)];
    let mut crossed = false;
    let r = multi_scalar_mult(&points, &scalars);
    if let Ok(MsmPlan::Cross { .. }) = r {
        crossed = true;
    }
    assert!(!crossed);
    assert!(matches!(
        r,
        Err(MsmError::LengthMismatch { points_len: 2, scalars_len: 1 })
    ));
}

#[test]
fn generic_length_mismatch_is_refused_without_crossing() {
    let points = vec![pt_ext(1, 2)];
    let scalars = vec![sc(5), sc(6)];
    let mut crossed = false;
    let r = multi_scalar_mult_arkworks(&points, &scalars, 104);
    if let Ok(MsmPlan::Cross { .. }) = r {
        crossed = true;
    }
    assert!(!crossed);
    assert!(matches!(
        r,
        Err(MsmError::LengthMismatch { points_len: 1, scalars_len: 2 })
    ));
}

#[test]
fn erased_length_mismatch_is_refused_without_crossing() {
    let out = FFITraitObject::new(0x1000);
    let points = FFITraitObject::new(0x2000);
    let scalars = FFITraitObject::new(0x3000);
    let mut crossed = false;
    let r = multi_scalar_mult_halo2(out, points, 3, scalars, 4, 104, 0);
    if let Ok(ErasedPlan::Cross { .. }) = r {
        crossed = true;
    }
    assert!(!crossed);
    assert!(matches!(
        r,
        Err(MsmError::LengthMismatch { points_len: 3, scalars_len: 4 })
    ));
}

#[test]
fn empty_native_request_yields_identity_without_crossing() {
    let points: Vec<PointAffine> = vec![];
    let scalars: Vec<Scalar> = vec![];
    let r = multi_scalar_mult(&points, &scalars);
    match r {
        Ok(MsmPlan::Immediate { result }) => {
            assert!(result.is_identity());
            assert_eq!(result, PointProjective::identity());
        }
        _ => panic!("empty request must short-circuit to the identity"),
    }
}

#[test]
fn empty_generic_request_yields_identity_without_crossing() {
    let points: Vec<PointAffineExt> = vec![];
    let scalars: Vec<Scalar> = vec![];
    let r = multi_scalar_mult_arkworks(&points, &scalars, 104);
    match r {
        Ok(MsmPlan::Immediate { result }) => assert!(result.is_identity()),
        _ => panic!("empty request must short-circuit to the identity"),
    }
}

#[test]
fn empty_erased_request_short_circuits() {
    let out = FFITraitObject::new(0x1000);
    let points = FFITraitObject::new(0x2000);
    let scalars = FFITraitObject::new(0x3000);
    let r = multi_scalar_mult_halo2(out, points, 0, scalars, 0, 104, 1);
    assert!(matches!(r, Ok(ErasedPlan::Immediate)));
}

#[test]
fn native_plan_carries_count_and_native_strides() {
    let points = vec![pt(1, 2), pt(3, 4), pt(5, 6)];
    let scalars = vec![sc(7), sc(8), sc(9)];
    match multi_scalar_mult(&points, &scalars) {
        Ok(MsmPlan::Cross { call }) => {
            assert_eq!(call.npoints, 3);
            assert_eq!(call.point_size, 96);
            assert_eq!(call.scalar_size, 32);
        }
        _ => panic!("an equal-length, non-empty request must cross"),
    }
}

#[test]
fn layout_mismatch_smaller_size_is_refused() {
    // A declared per-point size smaller than the true extended layout would
    // make the accelerator stride short and read garbage; the guard refuses
    // it before any crossing.
    let points = vec![pt_ext(1, 2)];
    let scalars = vec![sc(3)];
    let mut crossed = false;
    let r = multi_scalar_mult_arkworks(&points, &scalars, 96);
    if let Ok(MsmPlan::Cross { .. }) = r {
        crossed = true;
    }
    assert!(!crossed);
    assert!(matches!(
        r,
        Err(MsmError::LayoutMismatch { declared: 96, expected: 104 })
    ));
}

#[test]
fn layout_mismatch_is_checked_before_emptiness() {
    let points: Vec<PointAffineExt> = vec![];
    let scalars: Vec<Scalar> = vec![];
    let r = multi_scalar_mult_arkworks(&points, &scalars, 8);
    assert!(matches!(
        r,
        Err(MsmError::LayoutMismatch { declared: 8, expected: 104 })
    ));
}

#[test]
fn erased_descriptor_carries_declared_size_verbatim() {
    // The erased path has no reference type to check the stride against:
    // whatever the caller declares is what crosses.  The guard against a
    // wrong stride therefore lives in the generic adapter alone.
    let out = FFITraitObject::new(0x10);
    let points = FFITraitObject::new(0x20);
    let scalars = FFITraitObject::new(0x30);
    match multi_scalar_mult_halo2(out, points, 2, scalars, 2, 8, 0) {
        Ok(ErasedPlan::Cross { call }) => {
            assert_eq!(call.point_size, 8);
            assert_eq!(call.npoints, 2);
            assert_eq!(call.out.addr(), 0x10);
            assert_eq!(call.points.addr(), 0x20);
            assert_eq!(call.scalars.addr(), 0x30);
        }
        _ => panic!("an equal-length, non-empty request must cross"),
    }
}

#[test]
fn dispatch_is_deterministic() {
    let points = vec![pt(11, 12), pt(13, 14)];
    let scalars = vec![sc(15), sc(16)];
    let first = multi_scalar_mult(&points, &scalars);
    let second = multi_scalar_mult(&points, &scalars);
    assert_eq!(first, second);

    let gpoints = vec![pt_ext(1, 2)];
    let gscalars = vec![sc(3)];
    assert_eq!(
        multi_scalar_mult_arkworks(&gpoints, &gscalars, 104),
        multi_scalar_mult_arkworks(&gpoints, &gscalars, 104)
    );

    let outcome = DeviceOutcome { code: 0, message: String::new() };
    let device_result = PointProjective { x: fe(1), y: fe(2), z: fe(3) };
    assert_eq!(
        complete_projective(outcome.clone(), device_result),
        complete_projective(outcome, device_result)
    );
}

#[test]
fn device_index_changes_placement_only() {
    let out = FFITraitObject::new(0x100);
    let points = FFITraitObject::new(0x200);
    let scalars = FFITraitObject::new(0x300);
    let on_zero = multi_scalar_mult_halo2(out, points, 5, scalars, 5, 104, 0);
    let on_one = multi_scalar_mult_halo2(out, points, 5, scalars, 5, 104, 1);
    match (on_zero, on_one) {
        (Ok(ErasedPlan::Cross { call: a }), Ok(ErasedPlan::Cross { call: b })) => {
            assert_eq!(a.out, b.out);
            assert_eq!(a.points, b.points);
            assert_eq!(a.scalars, b.scalars);
            assert_eq!(a.npoints, b.npoints);
            assert_eq!(a.point_size, b.point_size);
            assert_eq!(a.device, 0);
            assert_eq!(b.device, 1);
        }
        _ => panic!("both dispatches must cross"),
    }
}

#[test]
fn success_outcome_returns_device_result_bit_identically() {
    let outcome = DeviceOutcome { code: 0, message: String::new() };
    let device_result = PointProjective { x: fe(21), y: fe(22), z: fe(1) };
    assert_eq!(complete_projective(outcome, device_result), Ok(device_result));

    let outcome = DeviceOutcome { code: 0, message: String::new() };
    assert_eq!(complete_erased(outcome), Ok(()));
}

#[test]
fn nonzero_outcome_becomes_device_error_with_message() {
    let outcome = DeviceOutcome { code: 77, message: String::from("out of device memory") };
    let device_result = PointProjective::identity();
    match complete_projective(outcome, device_result) {
        Err(MsmError::DeviceError { code, message }) => {
            assert_eq!(code, 77);
            assert_eq!(message, "out of device memory");
        }
        _ => panic!("a nonzero code must become a DeviceError"),
    }

    let outcome = DeviceOutcome { code: -1, message: String::from("launch failed") };
    match complete_erased(outcome) {
        Err(MsmError::DeviceError { code, message }) => {
            assert_eq!(code, -1);
            assert_eq!(message, "launch failed");
        }
        _ => panic!("a nonzero code must become a DeviceError"),
    }
}

#[test]
fn detected_locally_tells_local_errors_from_device_errors() {
    let local = MsmError::LengthMismatch { points_len: 1, scalars_len: 2 };
    assert!(local.detected_locally());
    let local = MsmError::LayoutMismatch { declared: 8, expected: 104 };
    assert!(local.detected_locally());
    let remote = MsmError::DeviceError { code: 3, message: String::from("boom") };
    assert!(!remote.detected_locally());
}

#[test]
fn handle_round_trips_its_address() {
    let h = FFITraitObject::new(0xdead_beef);
    assert_eq!(h.addr(), 0xdead_beef);
    let copy = h;
    assert_eq!(copy, h);
}

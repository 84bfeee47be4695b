// The timing probes: element selection and pass-through of the counts.

use msm_bridge::BenchPlan;
use msm_bridge::ProbeElement;
use msm_bridge::Scalar;
use msm_bridge::sppark_benchmark_point_mixed_add;
use msm_bridge::sppark_benchmark_scalar_mul;

fn sc(k: u64) -> Scalar {
    Scalar { l0: k, l1: 0, l2: 0, l3: 0 }
}

#[test]
fn scalar_probe_defaults_to_first_element() {
    let scalars = vec![sc(1), sc(2), sc(3)];
    let plan = sppark_benchmark_scalar_mul(&scalars, ProbeElement::First, 10, 4);
    assert_eq!(
        plan,
        Some(BenchPlan { element_index: 0, loop_times: 10, repeat_times: 4 })
    );
}

#[test]
fn scalar_probe_can_be_configured_to_second_element() {
    let scalars = vec![sc(1), sc(2), sc(3)];
    let plan = sppark_benchmark_scalar_mul(&scalars, ProbeElement::Second, 7, 2);
    assert_eq!(
        plan,
        Some(BenchPlan { element_index: 1, loop_times: 7, repeat_times: 2 })
    );
}

#[test]
fn scalar_probe_refuses_an_empty_buffer() {
    let scalars: Vec<Scalar> = vec![];
    assert_eq!(sppark_benchmark_scalar_mul(&scalars, ProbeElement::First, 10, 4), None);
}

#[test]
fn scalar_probe_refuses_second_element_of_a_one_element_buffer() {
    let scalars = vec![sc(1)];
    assert_eq!(sppark_benchmark_scalar_mul(&scalars, ProbeElement::Second, 10, 4), None);
    // The first element of the same buffer is fine.
    assert_eq!(
        sppark_benchmark_scalar_mul(&scalars, ProbeElement::First, 10, 4),
        Some(BenchPlan { element_index: 0, loop_times: 10, repeat_times: 4 })
    );
}

#[test]
fn point_probe_selects_elements_the_same_way() {
    assert_eq!(
        sppark_benchmark_point_mixed_add(5, ProbeElement::First, 100, 3),
        Some(BenchPlan { element_index: 0, loop_times: 100, repeat_times: 3 })
    );
    assert_eq!(
        sppark_benchmark_point_mixed_add(5, ProbeElement::Second, 100, 3),
        Some(BenchPlan { element_index: 1, loop_times: 100, repeat_times: 3 })
    );
    assert_eq!(sppark_benchmark_point_mixed_add(0, ProbeElement::First, 100, 3), None);
    assert_eq!(sppark_benchmark_point_mixed_add(1, ProbeElement::Second, 100, 3), None);
}

use chill::network::SimError;
use chill::sim::process;

fn bits(values: &[f64]) -> Vec<u64> {
    values.iter().map(|v| v.to_bits()).collect()
}

#[test]
fn threshold_constant_is_one_e8() {
    assert_eq!(chill::fp::THRESHOLD_BITS, (1.0e8f64).to_bits());
    assert_eq!(chill::fp::SIGN_MASK, (-0.0f64).to_bits());
    assert_eq!(chill::fp::INF_BITS, f64::INFINITY.to_bits());
    assert_eq!(chill::fp::ABS_MASK, !(-0.0f64).to_bits());
}

#[test]
fn oversized_delta_aborts_with_node_and_delta() {
    // Q * dt = 1e9 into node 1 with capacity 1: delta 1e9 > 1e8.
    let r = process(
        bits(&[0.0, 0.0]),
        bits(&[1.0, 1.0]),
        bits(&[1.0e9]),
        vec![(0, 1)],
        vec![2],
        (1.0f64).to_bits(),
        1,
    );
    assert_eq!(
        r,
        Err(SimError::Diverged { node: 1, delta_bits: (1.0e9f64).to_bits() })
    );
}

#[test]
fn oversized_delta_aborts_wherever_the_edge_stands() {
    // The diverging edge is last in the edge list; the run still aborts and
    // names it, after the earlier edges' deltas passed the guard.
    let r = process(
        bits(&[1.0, 0.0, 0.0]),
        bits(&[1.0, 1.0, 1.0]),
        bits(&[1.0, -4.0e8]),
        vec![(0, 1), (0, 2)],
        vec![0, 2],
        (1.0f64).to_bits(),
        1,
    );
    assert_eq!(
        r,
        Err(SimError::Diverged { node: 2, delta_bits: (-4.0e8f64).to_bits() })
    );
}

#[test]
fn delta_at_threshold_is_accepted() {
    // |delta| == 1e8 exactly: the guard is strict, so the step goes through.
    let r = process(
        bits(&[0.0]),
        bits(&[1.0]),
        bits(&[1.0e8]),
        vec![(0, 0)],
        vec![2],
        (1.0f64).to_bits(),
        1,
    );
    assert_eq!(r, Ok(bits(&[1.0e8])));
}

#[test]
fn delta_just_above_threshold_is_rejected() {
    let q = 1.0e8f64 + 32.0;
    let r = process(
        bits(&[0.0]),
        bits(&[1.0]),
        bits(&[q]),
        vec![(0, 0)],
        vec![2],
        (1.0f64).to_bits(),
        1,
    );
    assert_eq!(r, Err(SimError::Diverged { node: 0, delta_bits: q.to_bits() }));
}

#[test]
fn large_negative_delta_is_rejected() {
    let r = process(
        bits(&[0.0]),
        bits(&[1.0]),
        bits(&[-2.0e8]),
        vec![(0, 0)],
        vec![2],
        (1.0f64).to_bits(),
        1,
    );
    assert_eq!(r, Err(SimError::Diverged { node: 0, delta_bits: (-2.0e8f64).to_bits() }));
}

#[test]
fn infinite_delta_is_rejected() {
    let r = process(
        bits(&[0.0]),
        bits(&[1.0]),
        bits(&[f64::INFINITY]),
        vec![(0, 0)],
        vec![2],
        (1.0f64).to_bits(),
        1,
    );
    assert_eq!(
        r,
        Err(SimError::Diverged { node: 0, delta_bits: f64::INFINITY.to_bits() })
    );
}

#[test]
fn nan_delta_passes_the_guard() {
    // NaN compares false against the threshold, so a NaN delta is applied,
    // not reported as divergence.
    let r = process(
        bits(&[1.0]),
        bits(&[1.0]),
        bits(&[f64::NAN]),
        vec![(0, 0)],
        vec![2],
        (1.0f64).to_bits(),
        1,
    );
    let out = r.unwrap();
    assert!(f64::from_bits(out[0]).is_nan());
}

#[test]
fn divergence_in_a_later_step_aborts_the_run() {
    // Radiation doubles the fourth power each step; a few steps in, the
    // delta crosses the threshold and the whole run fails.
    let r = process(
        bits(&[100.0, 0.0]),
        bits(&[1.0, 1.0]),
        bits(&[1.0]),
        vec![(1, 0)],
        vec![1],
        (1.0f64).to_bits(),
        50,
    );
    assert!(matches!(r, Err(SimError::Diverged { node: _, delta_bits: _ })));
}

use chill::sim::process;

fn bits(values: &[f64]) -> Vec<u64> {
    values.iter().map(|v| v.to_bits()).collect()
}

fn floats(values: &[u64]) -> Vec<f64> {
    values.iter().map(|v| f64::from_bits(*v)).collect()
}

#[test]
fn transfer_scenario() {
    // One transfer edge, R = 1, dt = 0.1: flow = (0 - 100) / 1 * 0.1 = -10,
    // node 0 gets -10 / 1, node 1 gets +10 / 1.
    let r = process(
        bits(&[100.0, 0.0]),
        bits(&[1.0, 1.0]),
        bits(&[1.0]),
        vec![(0, 1)],
        vec![0],
        (0.1f64).to_bits(),
        1,
    );
    assert_eq!(floats(&r.unwrap()), vec![90.0, 10.0]);
}

#[test]
fn transfer_conserves_energy_across_capacities() {
    // Same edge, capacities 2 and 5: node 0 gets -10 / 2 = -5, node 1 gets
    // +10 / 5 = +2; the energy moved is equal and opposite.
    let caps = [2.0, 5.0];
    let t_in = [100.0, 0.0];
    let r = process(
        bits(&t_in),
        bits(&caps),
        bits(&[1.0]),
        vec![(0, 1)],
        vec![0],
        (0.1f64).to_bits(),
        1,
    );
    let t_out = floats(&r.unwrap());
    assert_eq!(t_out, vec![95.0, 2.0]);
    let energy0 = caps[0] * (t_out[0] - t_in[0]);
    let energy1 = caps[1] * (t_out[1] - t_in[1]);
    assert_eq!(energy0 + energy1, 0.0);
}

#[test]
fn radiation_edge() {
    // flow = (0^4 - 2^4) * 1 * 1 = -16: node 0 gets -16, node 1 gets +16.
    let r = process(
        bits(&[2.0, 0.0]),
        bits(&[1.0, 1.0]),
        bits(&[1.0]),
        vec![(0, 1)],
        vec![1],
        (1.0f64).to_bits(),
        1,
    );
    assert_eq!(floats(&r.unwrap()), vec![-14.0, 16.0]);
}

#[test]
fn heat_input_edge_feeds_second_node_only() {
    // flow = Q * dt = 5 * 0.5 = 2.5; node 1 gets 2.5 / 4 = 0.625 and the
    // first endpoint is not touched; the energy added is exactly Q * dt.
    let caps = [2.0, 4.0];
    let t_in = [10.0, 20.0];
    let r = process(
        bits(&t_in),
        bits(&caps),
        bits(&[5.0]),
        vec![(0, 1)],
        vec![2],
        (0.5f64).to_bits(),
        1,
    );
    let t_out = floats(&r.unwrap());
    assert_eq!(t_out, vec![10.0, 20.625]);
    assert_eq!(caps[1] * (t_out[1] - t_in[1]), 2.5);
}

#[test]
fn zero_steps_returns_input_bit_identical() {
    let temps = vec![
        (1.5f64).to_bits(),
        (-0.0f64).to_bits(),
        f64::NAN.to_bits(),
        f64::INFINITY.to_bits(),
    ];
    let r = process(
        temps.clone(),
        bits(&[1.0, 1.0, 1.0, 1.0]),
        bits(&[1.0]),
        vec![(0, 1)],
        vec![0],
        (0.1f64).to_bits(),
        0,
    );
    assert_eq!(r.unwrap(), temps);
}

#[test]
fn negative_steps_run_nothing() {
    let temps = bits(&[3.0, 4.0]);
    let r = process(
        temps.clone(),
        bits(&[1.0, 1.0]),
        bits(&[1.0]),
        vec![(0, 1)],
        vec![0],
        (0.1f64).to_bits(),
        -7,
    );
    assert_eq!(r.unwrap(), temps);
}

#[test]
fn chained_single_steps_match_one_call() {
    let caps = bits(&[1.3, 2.7]);
    let params = bits(&[0.9]);
    let conns = vec![(0usize, 1usize)];
    let types = vec![0];
    let dt = (0.07f64).to_bits();

    let in_one_call = process(
        bits(&[42.0, -3.5]),
        caps.clone(),
        params.clone(),
        conns.clone(),
        types.clone(),
        dt,
        5,
    )
    .unwrap();

    let mut chained = bits(&[42.0, -3.5]);
    for _ in 0..5 {
        chained = process(
            chained,
            caps.clone(),
            params.clone(),
            conns.clone(),
            types.clone(),
            dt,
            1,
        )
        .unwrap();
    }
    assert_eq!(in_one_call, chained);
}

#[test]
fn repeated_runs_are_deterministic() {
    let run = || {
        process(
            bits(&[8.25, -1.0, 3.0]),
            bits(&[1.0, 2.0, 4.0]),
            bits(&[2.0, 7.5]),
            vec![(0, 1), (2, 1)],
            vec![0, 0],
            (0.05f64).to_bits(),
            12,
        )
        .unwrap()
    };
    assert_eq!(run(), run());
}

#[test]
fn edges_to_one_node_accumulate_additively() {
    // Two heat inputs into node 0: +1 and +2, applied to the same snapshot.
    let r = process(
        bits(&[0.0]),
        bits(&[1.0]),
        bits(&[1.0, 2.0]),
        vec![(0, 0), (0, 0)],
        vec![2, 2],
        (1.0f64).to_bits(),
        1,
    );
    assert_eq!(floats(&r.unwrap()), vec![3.0]);
}

#[test]
fn edges_read_the_snapshot_not_partial_updates() {
    // Two identical transfer edges in one step must both see the snapshot:
    // each moves -10 from node 0 to node 1, so one step moves -20, not the
    // -10 then -8 that reading the partially updated vector would give.
    let r = process(
        bits(&[100.0, 0.0]),
        bits(&[1.0, 1.0]),
        bits(&[1.0, 1.0]),
        vec![(0, 1), (0, 1)],
        vec![0, 0],
        (0.1f64).to_bits(),
        1,
    );
    assert_eq!(floats(&r.unwrap()), vec![80.0, 20.0]);
}

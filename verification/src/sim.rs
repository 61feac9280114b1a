//! The step simulator: accumulate, guard, apply, repeat.
//!
//! One step evaluates every edge against the snapshot taken at the start of
//! the step, collecting the `(node, delta)` contributions of all edges in
//! edge order. The contributions are then applied in that order: each one is
//! first checked against the stability threshold — the first delta whose
//! magnitude exceeds it aborts the whole run — and then added to its node's
//! temperature. After the configured number of steps the final snapshot is
//! returned; a run either completes every step or fails with no partial
//! result.

use crate::edge::{edge_contribs, update_edge, Edge};
use crate::fp::{add_bits, guard_trips};
use crate::network::{validate_network, Network, SimError};
use vstd::prelude::*;

verus! {

/// The contributions of one step's first `e` edges, in edge order.
pub open spec fn updates_upto(
    edges: Seq<Edge>,
    caps: Seq<u64>,
    dt: u64,
    temps: Seq<u64>,
    e: int,
) -> Seq<(usize, u64)>
    decreases e,
{
    if e <= 0 {
        Seq::empty()
    } else {
        updates_upto(edges, caps, dt, temps, e - 1) + edge_contribs(
            edges[e - 1].kind,
            edges[e - 1].parameter,
            dt,
            temps,
            caps,
            edges[e - 1].n1,
            edges[e - 1].n2,
        )
    }
}

/// The full update list of one step: the contributions of every edge,
/// evaluated against the snapshot `temps`, in edge order.
pub open spec fn step_updates(edges: Seq<Edge>, caps: Seq<u64>, dt: u64, temps: Seq<u64>) -> Seq<
    (usize, u64),
> {
    updates_upto(edges, caps, dt, temps, edges.len() as int)
}

/// The result of applying the updates from position `j` on to the snapshot
/// `temps`, in order: the first update whose delta trips the stability
/// guard aborts with its `(node, delta)` pair; otherwise each delta is
/// added to its node's temperature.
pub open spec fn apply_from(temps: Seq<u64>, updates: Seq<(usize, u64)>, j: int) -> Result<
    Seq<u64>,
    (usize, u64),
>
    decreases updates.len() - j,
{
    if j < 0 || j >= updates.len() {
        Ok(temps)
    } else if guard_trips(updates[j].1) {
        Err(updates[j])
    } else {
        apply_from(
            temps.update(updates[j].0 as int, add_bits(temps[updates[j].0 as int], updates[j].1)),
            updates,
            j + 1,
        )
    }
}

/// The result of one full step from the snapshot `temps`: the next snapshot,
/// or the `(node, delta)` pair of the first update beyond the stability
/// threshold.
pub open spec fn step_result(edges: Seq<Edge>, caps: Seq<u64>, dt: u64, temps: Seq<u64>) -> Result<
    Seq<u64>,
    (usize, u64),
> {
    apply_from(temps, step_updates(edges, caps, dt, temps), 0)
}

/// The result of running `steps` full steps from the snapshot `temps`
/// (none if `steps <= 0`): the final snapshot, or the `(node, delta)` pair
/// of the first update beyond the stability threshold.
pub open spec fn run_result(
    edges: Seq<Edge>,
    caps: Seq<u64>,
    dt: u64,
    temps: Seq<u64>,
    steps: int,
) -> Result<Seq<u64>, (usize, u64)>
    decreases steps,
{
    if steps <= 0 {
        Ok(temps)
    } else {
        match step_result(edges, caps, dt, temps) {
            Ok(t) => run_result(edges, caps, dt, t, steps - 1),
            Err(e) => Err(e),
        }
    }
}

/// Running zero steps returns the input snapshot unchanged, bit for bit.
pub proof fn lemma_zero_steps_is_identity(edges: Seq<Edge>, caps: Seq<u64>, dt: u64, temps: Seq<u64>)
    ensures
        run_result(edges, caps, dt, temps, 0) == Ok::<Seq<u64>, (usize, u64)>(temps),
{
}

/// Running `a + b` steps in one call gives exactly the result of running
/// `a` steps and then, from that snapshot, `b` more steps; a run that fails
/// within the first `a` steps fails the same way. In particular, one call
/// with `k` steps equals `k` chained calls with one step each.
pub proof fn lemma_runs_compose(
    edges: Seq<Edge>,
    caps: Seq<u64>,
    dt: u64,
    temps: Seq<u64>,
    a: int,
    b: int,
)
    requires
        0 <= a,
        0 <= b,
    ensures
        run_result(edges, caps, dt, temps, a + b) == (match run_result(edges, caps, dt, temps, a) {
            Ok(t) => run_result(edges, caps, dt, t, b),
            Err(e) => Err(e),
        }),
    decreases a,
{
    if a > 0 {
        match step_result(edges, caps, dt, temps) {
            Ok(t) => {
                lemma_runs_compose(edges, caps, dt, t, a - 1, b);
            },
            Err(e) => {},
        }
    }
}

/// Run one step: evaluate every edge against the snapshot `temps`, then
/// check and apply the accumulated deltas in order. Returns the next
/// snapshot, or the `(node, delta)` pair of the first delta beyond the
/// stability threshold.
#[verifier::loop_isolation(false)]
pub fn run_step(net: &Network, dt: u64, temps: Vec<u64>) -> (r: Result<Vec<u64>, (usize, u64)>)
    requires
        net.wf(),
        temps@.len() == net.capacities@.len(),
    ensures
        match step_result(net.edges@, net.capacities@, dt, temps@) {
            Ok(t) => r matches Ok(v) && v@ == t && v@.len() == temps@.len(),
            Err(e) => r matches Err(a) && a == e,
        },
{
    let ghost t0 = temps@;
    let mut updates: Vec<(usize, u64)> = Vec::new();
    let mut i: usize = 0;
    while i < net.edges.len()
        invariant
            net.wf(),
            t0.len() == net.capacities@.len(),
            t0 == temps@,
            i <= net.edges@.len(),
            updates@ == updates_upto(net.edges@, net.capacities@, dt, t0, i as int),
            forall|k: int|
                0 <= k < updates@.len() ==> (#[trigger] updates@[k]).0 < t0.len(),
        decreases net.edges@.len() - i,
    {
        let ed = net.edges[i];
        update_edge(ed.kind, ed.parameter, dt, &net.capacities, &temps, ed.n1, ed.n2, &mut updates);
        i += 1;
    }
    let mut cur: Vec<u64> = temps;
    let mut j: usize = 0;
    while j < updates.len()
        invariant
            j <= updates@.len(),
            cur@.len() == t0.len(),
            forall|k: int|
                0 <= k < updates@.len() ==> (#[trigger] updates@[k]).0 < t0.len(),
            apply_from(t0, updates@, 0) == apply_from(cur@, updates@, j as int),
        decreases updates@.len() - j,
    {
        let u = updates[j];
        let idx: usize = u.0;
        let d: u64 = u.1;
        if crate::fp::delta_too_large(d) {
            return Err((idx, d));
        }
        cur[idx] = crate::fp::fp_add(cur[idx], d);
        j += 1;
    }
    Ok(cur)
}

/// Drive `steps` full steps from the snapshot `temps` (none if
/// `steps <= 0`). Returns the final snapshot, or the `(node, delta)` pair
/// of the first delta beyond the stability threshold; on failure no partial
/// snapshot is returned.
#[verifier::loop_isolation(false)]
pub fn run(net: &Network, temps: Vec<u64>, dt: u64, steps: i32) -> (r: Result<Vec<u64>, (usize, u64)>)
    requires
        net.wf(),
        temps@.len() == net.capacities@.len(),
    ensures
        match run_result(net.edges@, net.capacities@, dt, temps@, steps as int) {
            Ok(t) => r matches Ok(v) && v@ == t,
            Err(e) => r matches Err(a) && a == e,
        },
{
    let ghost t0 = temps@;
    let mut cur: Vec<u64> = temps;
    let mut k: i32 = 0;
    while k < steps
        invariant
            net.wf(),
            0 <= k,
            k <= steps || k == 0,
            cur@.len() == net.capacities@.len(),
            run_result(net.edges@, net.capacities@, dt, t0, steps as int) == run_result(
                net.edges@,
                net.capacities@,
                dt,
                cur@,
                steps as int - k as int,
            ),
        decreases steps - k,
    {
        match run_step(net, dt, cur) {
            Ok(v) => {
                cur = v;
            },
            Err(e) => {
                return Err(e);
            },
        }
        k += 1;
    }
    Ok(cur)
}

/// The error validation of the full inputs of a run reports, if any: a
/// length mismatch between the temperature and capacity arrays, else
/// whatever network validation reports.
pub open spec fn validate_inputs(
    temps: Seq<u64>,
    caps: Seq<u64>,
    params: Seq<u64>,
    conns: Seq<(usize, usize)>,
    types: Seq<i32>,
) -> Option<SimError> {
    if temps.len() != caps.len() {
        Some(SimError::DimensionMismatch)
    } else {
        validate_network(caps, params, conns, types)
    }
}

/// Simulate heat redistribution over a fixed number of explicit-Euler steps.
///
/// The raw arrays describe the network: one temperature and one capacity
/// per node, and one parameter, one `(node, node)` connection pair and one
/// kind code (`0` transfer, `1` radiation, `2` heat input) per edge; `dt`
/// is the step length. All binary64 values are passed as bit patterns.
///
/// The inputs are validated before any step runs, and the first violation
/// found is reported as the exact `SimError` that `validate_inputs` gives.
/// On valid inputs the result is exactly `run_result`: the temperature
/// vector after `steps` steps (for `steps <= 0`, the input vector
/// unchanged), or `Diverged` naming the node and delta of the first
/// accumulated delta whose magnitude exceeds the stability threshold.
pub fn process(
    temperatures: Vec<u64>,
    capacities: Vec<u64>,
    parameters: Vec<u64>,
    connections: Vec<(usize, usize)>,
    edge_types: Vec<i32>,
    dt: u64,
    steps: i32,
) -> (r: Result<Vec<u64>, SimError>)
    ensures
        match validate_inputs(temperatures@, capacities@, parameters@, connections@, edge_types@) {
            Some(e) => r matches Err(a) && a == e,
            None => match run_result(
                crate::network::spec_edges(parameters@, connections@, edge_types@),
                capacities@,
                dt,
                temperatures@,
                steps as int,
            ) {
                Ok(t) => r matches Ok(v) && v@ == t,
                Err(p) => r matches Err(a) && a == (SimError::Diverged {
                    node: p.0,
                    delta_bits: p.1,
                }),
            },
        },
        steps <= 0 && validate_inputs(
            temperatures@,
            capacities@,
            parameters@,
            connections@,
            edge_types@,
        ) is None ==> (r matches Ok(v) && v@ == temperatures@),
{
    if temperatures.len() != capacities.len() {
        return Err(SimError::DimensionMismatch);
    }
    let net = match Network::new(capacities, parameters, connections, edge_types) {
        Ok(n) => n,
        Err(e) => {
            return Err(e);
        },
    };
    match run(&net, temperatures, dt, steps) {
        Ok(v) => Ok(v),
        Err(p) => Err(SimError::Diverged { node: p.0, delta_bits: p.1 }),
    }
}

} // verus!

//! Edge kinds and the per-edge physics evaluation.
//!
//! An edge connects two nodes and carries one of three physics rules. For
//! one simulation step, evaluating an edge against the temperature snapshot
//! yields a shared flow term and one temperature-delta contribution per
//! affected node; the contributions of all edges are collected into an
//! update list and applied only after every edge has been evaluated.

use crate::fp::{div_bits, mul_bits, neg_bits, pow4_bits, sub_bits};
use vstd::prelude::*;

verus! {

/// The physics rule an edge carries.
#[derive(Clone, Copy, Debug, PartialEq, Eq)]
pub enum EdgeType {
    /// Conductive exchange; the edge parameter is a thermal resistance `R`.
    Transfer,
    /// Radiative exchange; the edge parameter is the combined
    /// emissivity / view-factor / Stefan-Boltzmann / area coefficient `k`.
    Radiation,
    /// Fixed injection; the edge parameter is an injected power `Q`,
    /// delivered to the edge's second node only.
    HeatInput,
}

/// The meaning of an integer edge-kind code: `0` is `Transfer`, `1` is
/// `Radiation`, `2` is `HeatInput`, everything else is unrecognized.
pub open spec fn spec_from_i32(value: i32) -> Option<EdgeType> {
    if value == 0 {
        Some(EdgeType::Transfer)
    } else if value == 1 {
        Some(EdgeType::Radiation)
    } else if value == 2 {
        Some(EdgeType::HeatInput)
    } else {
        None
    }
}

impl EdgeType {
    /// Decode an integer edge-kind code; unrecognized codes yield `None`.
    pub fn from_i32(value: i32) -> (r: Option<EdgeType>)
        ensures
            r == spec_from_i32(value),
    {
        if value == 0 {
            Some(EdgeType::Transfer)
        } else if value == 1 {
            Some(EdgeType::Radiation)
        } else if value == 2 {
            Some(EdgeType::HeatInput)
        } else {
            None
        }
    }
}

/// A validated edge: its kind, its parameter (a binary64 bit pattern) and
/// the indices of the two nodes it connects.
#[derive(Clone, Copy, Debug, PartialEq, Eq)]
pub struct Edge {
    pub kind: EdgeType,
    pub parameter: u64,
    pub n1: usize,
    pub n2: usize,
}

/// The shared flow term of one edge for one step, as a binary64 bit pattern
/// over the snapshot temperatures `t1` (at the first node) and `t2` (at the
/// second node):
/// - `Transfer`: `(t2 - t1) / parameter * dt`;
/// - `Radiation`: `(t2^4 - t1^4) * parameter * dt`;
/// - `HeatInput`: `parameter * dt` (the snapshot is not read).
pub open spec fn flow_bits(kind: EdgeType, parameter: u64, dt: u64, t1: u64, t2: u64) -> u64 {
    match kind {
        EdgeType::Transfer => mul_bits(div_bits(sub_bits(t2, t1), parameter), dt),
        EdgeType::Radiation => mul_bits(mul_bits(sub_bits(pow4_bits(t2), pow4_bits(t1)), parameter), dt),
        EdgeType::HeatInput => mul_bits(parameter, dt),
    }
}

/// The `(node index, temperature delta)` contributions of one edge for one
/// step. `Transfer` and `Radiation` contribute `flow / capacity[n1]` to the
/// first node and `-flow / capacity[n2]` to the second, so that in exact
/// arithmetic the energy exchanged is equal and opposite; `HeatInput`
/// contributes `flow / capacity[n2]` to the second node only.
pub open spec fn edge_contribs(
    kind: EdgeType,
    parameter: u64,
    dt: u64,
    temps: Seq<u64>,
    caps: Seq<u64>,
    n1: usize,
    n2: usize,
) -> Seq<(usize, u64)> {
    let flow = flow_bits(kind, parameter, dt, temps[n1 as int], temps[n2 as int]);
    match kind {
        EdgeType::Transfer | EdgeType::Radiation => seq![
            (n1, div_bits(flow, caps[n1 as int])),
            (n2, div_bits(neg_bits(flow), caps[n2 as int])),
        ],
        EdgeType::HeatInput => seq![(n2, div_bits(flow, caps[n2 as int]))],
    }
}

/// Evaluate one edge against the snapshot `temperatures` and append its
/// `(node index, temperature delta)` contributions to `updates`. The
/// snapshot itself is never written, so every edge of a step observes the
/// temperatures from the start of that step.
pub fn update_edge(
    edge_type: EdgeType,
    parameter: u64,
    dt: u64,
    capacities: &Vec<u64>,
    temperatures: &Vec<u64>,
    n1: usize,
    n2: usize,
    updates: &mut Vec<(usize, u64)>,
)
    requires
        n1 < temperatures@.len(),
        n2 < temperatures@.len(),
        temperatures@.len() == capacities@.len(),
    ensures
        final(updates)@ == old(updates)@ + edge_contribs(
            edge_type,
            parameter,
            dt,
            temperatures@,
            capacities@,
            n1,
            n2,
        ),
{
    let delta_temp: u64 = match edge_type {
        EdgeType::Transfer => {
            crate::fp::fp_mul(crate::fp::fp_div(crate::fp::fp_sub(temperatures[n2], temperatures[n1]), parameter), dt)
        },
        EdgeType::Radiation => {
            crate::fp::fp_mul(
                crate::fp::fp_mul(crate::fp::fp_sub(crate::fp::pow4(temperatures[n2]), crate::fp::pow4(temperatures[n1])), parameter),
                dt,
            )
        },
        EdgeType::HeatInput => crate::fp::fp_mul(parameter, dt),
    };
    match edge_type {
        EdgeType::Transfer | EdgeType::Radiation => {
            updates.push((n1, crate::fp::fp_div(delta_temp, capacities[n1])));
            updates.push((n2, crate::fp::fp_div(crate::fp::fp_neg(delta_temp), capacities[n2])));
        },
        EdgeType::HeatInput => {
            updates.push((n2, crate::fp::fp_div(delta_temp, capacities[n2])));
        },
    }
    assert(updates@ =~= old(updates)@ + edge_contribs(
        edge_type,
        parameter,
        dt,
        temperatures@,
        capacities@,
        n1,
        n2,
    ));
}

} // verus!

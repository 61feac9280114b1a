//! Energy accounting for the edge physics, in exact arithmetic.
//!
//! The per-edge contributions divide a shared flow term by each affected
//! node's own capacity (see `edge_contribs`), so that re-multiplying a
//! node's temperature delta by its capacity recovers the energy moved. This
//! module states that design property where it is exact — over the rational
//! numbers, of which the binary64 values the simulator computes with are
//! the rounded images: a `Transfer` or `Radiation` edge moves equal and
//! opposite energy through its two nodes whatever their capacities, and a
//! `HeatInput` edge injects exactly `Q * dt`.

use crate::edge::EdgeType;
use vstd::prelude::*;

verus! {

/// A rational number `num / den`; meaningful whenever `den != 0`.
pub struct Rat {
    pub num: int,
    pub den: int,
}

/// Whether a rational is well formed (its denominator is nonzero).
pub open spec fn rat_wf(a: Rat) -> bool {
    a.den != 0
}

/// The rational zero.
pub open spec fn rat_zero() -> Rat {
    Rat { num: 0, den: 1 }
}

/// Rational addition.
pub open spec fn rat_add(a: Rat, b: Rat) -> Rat {
    Rat { num: a.num * b.den + b.num * a.den, den: a.den * b.den }
}

/// Rational negation.
pub open spec fn rat_neg(a: Rat) -> Rat {
    Rat { num: -a.num, den: a.den }
}

/// Rational multiplication.
pub open spec fn rat_mul(a: Rat, b: Rat) -> Rat {
    Rat { num: a.num * b.num, den: a.den * b.den }
}

/// Rational division; well formed when `b` is nonzero (`b.num != 0`).
pub open spec fn rat_div(a: Rat, b: Rat) -> Rat {
    Rat { num: a.num * b.den, den: a.den * b.num }
}

/// Equality of the represented values, by cross multiplication.
pub open spec fn rat_eq(a: Rat, b: Rat) -> bool {
    a.num * b.den == b.num * a.den
}

/// The energy one edge adds to its nodes in one step, in exact arithmetic,
/// given its shared flow term and the capacities `ca`, `cb` of its two
/// endpoints. Mirroring `edge_contribs` delta for delta: `Transfer` and
/// `Radiation` contribute the temperature deltas `flow / ca` and
/// `-flow / cb`, `HeatInput` contributes `flow / cb` to the second node
/// only; each node's energy change is its capacity times its delta, and
/// this is their sum.
pub open spec fn edge_energy(kind: EdgeType, flow: Rat, ca: Rat, cb: Rat) -> Rat {
    match kind {
        EdgeType::Transfer | EdgeType::Radiation => rat_add(
            rat_mul(ca, rat_div(flow, ca)),
            rat_mul(cb, rat_div(rat_neg(flow), cb)),
        ),
        EdgeType::HeatInput => rat_mul(cb, rat_div(flow, cb)),
    }
}

/// Energy conservation: in exact arithmetic, a `Transfer` or `Radiation`
/// edge moves equal and opposite energy through its two nodes in one step,
/// so its energy sum is exactly zero — for every flow and for all (nonzero)
/// capacities, because each delta divides the shared flow by the same
/// capacity that the energy accounting multiplies back.
pub proof fn lemma_edge_energy_conserved(kind: EdgeType, flow: Rat, ca: Rat, cb: Rat)
    requires
        kind is Transfer || kind is Radiation,
        rat_wf(flow),
        rat_wf(ca),
        rat_wf(cb),
        ca.num != 0,
        cb.num != 0,
    ensures
        rat_wf(edge_energy(kind, flow, ca, cb)),
        rat_eq(edge_energy(kind, flow, ca, cb), rat_zero()),
{
    let s = edge_energy(kind, flow, ca, cb);
    assert(s.num == (ca.num * (flow.num * ca.den)) * (cb.den * (flow.den * cb.num)) + (cb.num * (
    -flow.num * cb.den)) * (ca.den * (flow.den * ca.num)));
    assert((ca.num * (flow.num * ca.den)) * (cb.den * (flow.den * cb.num)) == ((((ca.num * ca.den)
        * cb.num) * cb.den) * flow.num) * flow.den) by (nonlinear_arith);
    assert((cb.num * (-flow.num * cb.den)) * (ca.den * (flow.den * ca.num)) == -(((((ca.num
        * ca.den) * cb.num) * cb.den) * flow.num) * flow.den)) by (nonlinear_arith);
    assert(s.num == 0);
    assert(s.num * rat_zero().den == rat_zero().num * s.den) by (nonlinear_arith)
        requires
            s.num == 0,
    ;
    assert(s.den != 0) by (nonlinear_arith)
        requires
            flow.den != 0,
            ca.den != 0,
            cb.den != 0,
            ca.num != 0,
            cb.num != 0,
            s.den == (ca.den * (flow.den * ca.num)) * (cb.den * (flow.den * cb.num)),
    ;
}

/// Energy injection: in exact arithmetic, a `HeatInput` edge with power `q`
/// and step length `dt` — its flow term is `q * dt` — adds exactly the
/// energy `q * dt` to its target node in one step, whatever the node's
/// (nonzero) capacity `cb` and whatever the other endpoint's capacity `ca`
/// (which the edge never reads), because the delta divides `q * dt` by the
/// same capacity that the energy accounting multiplies back.
pub proof fn lemma_heat_input_energy_is_q_dt(q: Rat, dt: Rat, ca: Rat, cb: Rat)
    requires
        rat_wf(q),
        rat_wf(dt),
        rat_wf(cb),
        cb.num != 0,
    ensures
        rat_wf(edge_energy(EdgeType::HeatInput, rat_mul(q, dt), ca, cb)),
        rat_eq(edge_energy(EdgeType::HeatInput, rat_mul(q, dt), ca, cb), rat_mul(q, dt)),
{
    let s = edge_energy(EdgeType::HeatInput, rat_mul(q, dt), ca, cb);
    assert(s.num * (q.den * dt.den) == (q.num * dt.num) * s.den) by (nonlinear_arith)
        requires
            s.num == cb.num * ((q.num * dt.num) * cb.den),
            s.den == cb.den * ((q.den * dt.den) * cb.num),
    ;
    assert(s.den != 0) by (nonlinear_arith)
        requires
            q.den != 0,
            dt.den != 0,
            cb.den != 0,
            cb.num != 0,
            s.den == cb.den * ((q.den * dt.den) * cb.num),
    ;
}

} // verus!

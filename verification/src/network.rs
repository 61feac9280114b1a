//! The validated network descriptor and the input validation rules.
//!
//! A network is built once per run from the caller's raw arrays. Validation
//! checks, in this order: that the three edge arrays have one length, that
//! every capacity is strictly positive, and then, edge by edge, that the
//! kind code is recognized and that both endpoint indices are in range. The
//! first violation found is reported and nothing is simulated.

use crate::edge::{spec_from_i32, Edge, EdgeType};
use crate::fp::is_pos_bits;
use vstd::prelude::*;

verus! {

/// Why a run failed: either the inputs were rejected before any step ran
/// (the first four variants), or a step produced a temperature delta beyond
/// the stability threshold (`Diverged`).
#[derive(Clone, Copy, Debug, PartialEq, Eq)]
pub enum SimError {
    /// The input arrays do not describe one network: the edge arrays differ
    /// in length, or the temperature and capacity arrays do.
    DimensionMismatch,
    /// The capacity of node `node` is not strictly positive.
    NonPositiveCapacity { node: usize },
    /// Edge `edge` carries the unrecognized kind code `code`.
    UnknownEdgeKind { edge: usize, code: i32 },
    /// Edge `edge` names the node index `node`, which is out of range.
    NodeIndexOutOfRange { edge: usize, node: usize },
    /// A single accumulated temperature delta for node `node` exceeded the
    /// stability threshold; `delta_bits` is its binary64 bit pattern.
    Diverged { node: usize, delta_bits: u64 },
}

/// The edge kind a validated code denotes. On unrecognized codes (which
/// validation rejects) the value is immaterial and defaults to `Transfer`.
pub open spec fn kind_of_code(value: i32) -> EdgeType {
    if value == 1 {
        EdgeType::Radiation
    } else if value == 2 {
        EdgeType::HeatInput
    } else {
        EdgeType::Transfer
    }
}

/// The typed edge sequence a set of validated raw edge arrays denotes.
pub open spec fn spec_edges(params: Seq<u64>, conns: Seq<(usize, usize)>, types: Seq<i32>) -> Seq<Edge> {
    Seq::new(
        types.len(),
        |i: int| Edge {
            kind: kind_of_code(types[i]),
            parameter: params[i],
            n1: conns[i].0,
            n2: conns[i].1,
        },
    )
}

/// The first node index at or after position `i` whose capacity is not
/// strictly positive, if any.
pub open spec fn first_bad_capacity_from(caps: Seq<u64>, i: int) -> Option<int>
    decreases caps.len() - i,
{
    if i < 0 || i >= caps.len() {
        None
    } else if !is_pos_bits(caps[i]) {
        Some(i)
    } else {
        first_bad_capacity_from(caps, i + 1)
    }
}

/// The first edge violation at or after edge `i`, if any: an unrecognized
/// kind code, or an endpoint index at or above the node count `n` (the kind
/// code is checked first, then the first endpoint, then the second).
pub open spec fn first_bad_edge_from(
    conns: Seq<(usize, usize)>,
    types: Seq<i32>,
    n: int,
    i: int,
) -> Option<SimError>
    decreases types.len() - i,
{
    if i < 0 || i >= types.len() {
        None
    } else if spec_from_i32(types[i]) is None {
        Some(SimError::UnknownEdgeKind { edge: i as usize, code: types[i] })
    } else if conns[i].0 >= n {
        Some(SimError::NodeIndexOutOfRange { edge: i as usize, node: conns[i].0 })
    } else if conns[i].1 >= n {
        Some(SimError::NodeIndexOutOfRange { edge: i as usize, node: conns[i].1 })
    } else {
        first_bad_edge_from(conns, types, n, i + 1)
    }
}

/// The error validation of the raw network arrays reports, if any: a
/// dimension mismatch among the edge arrays, else the first non-positive
/// capacity, else the first edge violation.
pub open spec fn validate_network(
    caps: Seq<u64>,
    params: Seq<u64>,
    conns: Seq<(usize, usize)>,
    types: Seq<i32>,
) -> Option<SimError> {
    if params.len() != conns.len() || params.len() != types.len() {
        Some(SimError::DimensionMismatch)
    } else {
        match first_bad_capacity_from(caps, 0) {
            Some(i) => Some(SimError::NonPositiveCapacity { node: i as usize }),
            None => first_bad_edge_from(conns, types, caps.len() as int, 0),
        }
    }
}

/// An immutable validated view of the network: the node capacities and the
/// typed edges. Topology, parameters and capacities are fixed for the whole
/// run; only the temperature vector evolves.
#[derive(Debug, PartialEq, Eq)]
pub struct Network {
    pub capacities: Vec<u64>,
    pub edges: Vec<Edge>,
}

impl Network {
    /// Well-formedness: every capacity is strictly positive and every edge
    /// endpoint is a valid node index. `Network::new` establishes this for
    /// every network it returns.
    pub open spec fn wf(self) -> bool {
        &&& forall|i: int|
            0 <= i < self.edges@.len() ==> (#[trigger] self.edges@[i]).n1 < self.capacities@.len()
                && self.edges@[i].n2 < self.capacities@.len()
        &&& forall|i: int| 0 <= i < self.capacities@.len() ==> is_pos_bits(#[trigger] self.capacities@[i])
    }

    /// The number of nodes in the network.
    pub fn node_count(&self) -> (r: usize)
        ensures
            r == self.capacities@.len(),
    {
        self.capacities.len()
    }

    /// The capacity of node `node`, as a binary64 bit pattern.
    pub fn capacity(&self, node: usize) -> (r: u64)
        requires
            node < self.capacities@.len(),
        ensures
            r == self.capacities@[node as int],
    {
        self.capacities[node]
    }

    /// Validate the raw network arrays and build the typed descriptor. The
    /// exact error reported for rejected inputs is `validate_network`'s; on
    /// success the descriptor holds the given capacities and the typed form
    /// of the given edges.
    pub fn new(
        capacities: Vec<u64>,
        parameters: Vec<u64>,
        connections: Vec<(usize, usize)>,
        edge_types: Vec<i32>,
    ) -> (r: Result<Network, SimError>)
        ensures
            match validate_network(capacities@, parameters@, connections@, edge_types@) {
                Some(e) => r matches Err(a) && a == e,
                None => r matches Ok(n) && n.wf() && n.capacities@ == capacities@ && n.edges@
                    == spec_edges(parameters@, connections@, edge_types@),
            },
    {
        if parameters.len() != connections.len() || parameters.len() != edge_types.len() {
            return Err(SimError::DimensionMismatch);
        }
        let n: usize = capacities.len();
        let mut i: usize = 0;
        while i < n
            invariant
                n == capacities@.len(),
                i <= n,
                parameters@.len() == connections@.len(),
                parameters@.len() == edge_types@.len(),
                first_bad_capacity_from(capacities@, 0) == first_bad_capacity_from(capacities@, i as int),
                forall|j: int| 0 <= j < i ==> is_pos_bits(#[trigger] capacities@[j]),
            decreases n - i,
        {
            if !crate::fp::is_pos(capacities[i]) {
                return Err(SimError::NonPositiveCapacity { node: i });
            }
            i += 1;
        }
        let mut edges: Vec<Edge> = Vec::new();
        let mut e: usize = 0;
        while e < edge_types.len()
            invariant
                n == capacities@.len(),
                parameters@.len() == connections@.len(),
                parameters@.len() == edge_types@.len(),
                e <= edge_types@.len(),
                first_bad_capacity_from(capacities@, 0) is None,
                forall|j: int| 0 <= j < n ==> is_pos_bits(#[trigger] capacities@[j]),
                first_bad_edge_from(connections@, edge_types@, n as int, 0) == first_bad_edge_from(
                    connections@,
                    edge_types@,
                    n as int,
                    e as int,
                ),
                edges@ == spec_edges(parameters@, connections@, edge_types@).take(e as int),
                forall|j: int|
                    0 <= j < e ==> (#[trigger] edges@[j]).n1 < n && edges@[j].n2 < n,
            decreases edge_types@.len() - e,
        {
            let code: i32 = edge_types[e];
            let kind: EdgeType = match EdgeType::from_i32(code) {
                Some(k) => k,
                None => {
                    return Err(SimError::UnknownEdgeKind { edge: e, code });
                },
            };
            let conn = connections[e];
            let n1: usize = conn.0;
            let n2: usize = conn.1;
            if n1 >= n {
                return Err(SimError::NodeIndexOutOfRange { edge: e, node: n1 });
            }
            if n2 >= n {
                return Err(SimError::NodeIndexOutOfRange { edge: e, node: n2 });
            }
            edges.push(Edge { kind, parameter: parameters[e], n1, n2 });
            assert(edges@ =~= spec_edges(parameters@, connections@, edge_types@).take(e as int + 1));
            e += 1;
        }
        let net = Network { capacities, edges };
        assert(net.edges@ =~= spec_edges(parameters@, connections@, edge_types@));
        Ok(net)
    }
}

} // verus!

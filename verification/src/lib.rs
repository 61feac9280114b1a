//! A thermal-network simulator over IEEE-754 binary64 values.
//!
//! Nodes carry a temperature and a positive heat capacity; edges connect two
//! nodes and carry one of three physics rules (conductive transfer, radiative
//! exchange, fixed heat input). The simulator advances the temperature vector
//! through a fixed number of explicit-Euler steps: each step evaluates every
//! edge against the snapshot taken at the start of the step, accumulates the
//! per-node temperature deltas, rejects any delta whose magnitude exceeds a
//! fixed stability threshold, and applies the deltas to produce the next
//! snapshot.
//!
//! Throughout the library a binary64 value is carried as its bit pattern in a
//! `u64`, so that every contract is an exact statement about bits.

pub mod edge;
pub mod energy;
pub mod fp;
pub mod network;
pub mod sim;

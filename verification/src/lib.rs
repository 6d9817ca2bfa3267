//! Complex analysis for agents.
//!
//! This crate holds the exact, combinatorial part of the library: how the
//! sheets of a Riemann surface are permuted by monodromy, the Euler
//! characteristic and genus of a covering, the classification enums that the
//! numerical routines report, and how an agent records the outcome of a
//! decision-boundary membership test. Every function here is checked by Verus
//! against its contract.

pub mod agent_complex;
pub mod julia;
pub mod residue;
pub mod riemann_surface;

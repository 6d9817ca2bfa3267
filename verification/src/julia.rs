//! Classification of the fixed points of a holomorphic dynamical system.

use vstd::prelude::*;

verus! {

/// Classify a fixed point by its multiplier.
#[derive(Debug, Clone, PartialEq, Eq, Structural)]
pub enum FixedPointType {
    SuperAttracting,
    Attracting,
    Repelling,
    Indifferent,
    Parabolic,
}

} // verus!

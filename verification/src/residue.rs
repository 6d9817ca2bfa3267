//! Singularity classification reported by the residue calculus.

use vstd::prelude::*;

verus! {

/// Classify the type of singularity of f at z0.
#[derive(Debug, Clone, PartialEq, Eq, Structural)]
pub enum SingularityType {
    Removable,
    Pole { order: usize },
    Essential,
    NotIsolated,
}

} // verus!

//! Agent-facing records: the reasoning mode, the classification of a position
//! against a decision boundary, and how that classification is recorded in
//! the agent's state.

use vstd::prelude::*;

verus! {

/// Agent reasoning mode.
#[derive(Debug, Clone)]
pub enum ReasoningMode {
    /// Analyze via holomorphic function theory.
    Holomorphic,
    /// Contour integration based reasoning.
    Contour,
    /// Residue calculus.
    Residue,
    /// Potential theory.
    Potential,
    /// Dynamical systems (Julia/Mandelbrot).
    Dynamics,
    /// Conformal mapping.
    Conformal,
}

/// Boundary classification result.
#[derive(Debug, Clone)]
pub struct BoundaryClassification {
    pub in_set: bool,
    pub escape_iteration: Option<usize>,
    pub boundary_type: String,
}

/// Which decision boundary an agent classifies its position against.
#[derive(Debug, Clone)]
pub enum BoundaryKind {
    /// The filled Julia set of a quadratic map.
    Julia,
    /// The Mandelbrot set.
    Mandelbrot,
    /// A named boundary that has no membership test.
    Custom { name: String },
}

/// The part of an agent's state that a classification updates.
#[derive(Debug, Clone, PartialEq, Eq, Structural)]
pub struct BoundaryStatus {
    pub on_decision_boundary: bool,
    pub basin_label: Option<usize>,
}

/// The label that a boundary of the given kind reports.
pub open spec fn boundary_label(kind: BoundaryKind) -> Seq<char> {
    match kind {
        BoundaryKind::Julia => "Julia"@,
        BoundaryKind::Mandelbrot => "Mandelbrot"@,
        BoundaryKind::Custom { name } => name@,
    }
}

/// The agent's status after a position was classified against `kind`, where
/// the membership test reported `in_set` and `escape_iteration`: a Julia
/// boundary records both whether the position is in the set and its basin
/// (0 inside, the escape iteration outside); a Mandelbrot boundary records
/// only whether it is in the set; a custom boundary records nothing.
pub open spec fn status_after(
    kind: BoundaryKind,
    before: BoundaryStatus,
    in_set: bool,
    escape_iteration: Option<usize>,
) -> BoundaryStatus {
    match kind {
        BoundaryKind::Julia => BoundaryStatus {
            on_decision_boundary: in_set,
            basin_label: if in_set {
                Some(0usize)
            } else {
                escape_iteration
            },
        },
        BoundaryKind::Mandelbrot => BoundaryStatus { on_decision_boundary: in_set, ..before },
        BoundaryKind::Custom { .. } => before,
    }
}

/// Record the outcome of a membership test against the decision boundary
/// `kind` and build the classification that is reported for it.
///
/// For a Julia or Mandelbrot boundary, `in_set` and `escape_iteration` are
/// what the membership test of the current position returned. A custom
/// boundary has no membership test: it reports that the position is not in
/// the set and has no escape iteration, and the two arguments are not read.
pub fn record_membership(
    kind: &BoundaryKind,
    status: &mut BoundaryStatus,
    in_set: bool,
    escape_iteration: Option<usize>,
) -> (c: BoundaryClassification)
    ensures
        *final(status) == status_after(*kind, *old(status), in_set, escape_iteration),
        !(kind is Custom) ==> final(status).on_decision_boundary == in_set,
        kind is Julia ==> final(status).basin_label == (if in_set {
            Some(0usize)
        } else {
            escape_iteration
        }),
        kind is Mandelbrot ==> final(status).basin_label == old(status).basin_label,
        kind is Custom ==> *final(status) == *old(status),
        c.boundary_type@ == boundary_label(*kind),
        kind is Julia ==> c.boundary_type@ == "Julia"@,
        kind is Mandelbrot ==> c.boundary_type@ == "Mandelbrot"@,
        kind is Custom ==> c.boundary_type@ == kind->name@,
        c.in_set == (in_set && !(kind is Custom)),
        c.escape_iteration == (if kind is Custom {
            None
        } else {
            escape_iteration
        }),
{
    match kind {
        BoundaryKind::Julia => {
            status.on_decision_boundary = in_set;
            status.basin_label = if in_set {
                Some(0)
            } else {
                escape_iteration
            };
            BoundaryClassification {
                in_set,
                escape_iteration,
                boundary_type: "Julia".to_owned(),
            }
        },
        BoundaryKind::Mandelbrot => {
            status.on_decision_boundary = in_set;
            BoundaryClassification {
                in_set,
                escape_iteration,
                boundary_type: "Mandelbrot".to_owned(),
            }
        },
        BoundaryKind::Custom { name } => {
            BoundaryClassification { in_set: false, escape_iteration: None, boundary_type: name.clone() }
        },
    }
}

/// Against a Julia or Mandelbrot boundary, the recorded on-boundary flag is
/// the outcome of the membership test, whatever the agent's status was before.
pub proof fn lemma_recorded_flag_is_membership(
    kind: BoundaryKind,
    before: BoundaryStatus,
    in_set: bool,
    escape_iteration: Option<usize>,
)
    requires
        !(kind is Custom),
    ensures
        status_after(kind, before, in_set, escape_iteration).on_decision_boundary == in_set,
{
}

/// Against a Julia boundary the recorded status depends on the membership
/// outcome alone: from any two earlier statuses the same status results, with
/// basin label 0 for a point in the set and the escape iteration for one
/// outside it.
pub proof fn lemma_julia_status_ignores_previous(
    before1: BoundaryStatus,
    before2: BoundaryStatus,
    in_set: bool,
    escape_iteration: Option<usize>,
)
    ensures
        status_after(BoundaryKind::Julia, before1, in_set, escape_iteration) == status_after(
            BoundaryKind::Julia,
            before2,
            in_set,
            escape_iteration,
        ),
        in_set ==> status_after(BoundaryKind::Julia, before1, in_set, escape_iteration).basin_label
            == Some(0usize),
        !in_set ==> status_after(
            BoundaryKind::Julia,
            before1,
            in_set,
            escape_iteration,
        ).basin_label == escape_iteration,
{
}

/// Against a Mandelbrot boundary, recording a membership outcome never
/// changes the basin label, and two earlier statuses with the same basin
/// label lead to the same status.
pub proof fn lemma_mandelbrot_keeps_basin_label(
    before1: BoundaryStatus,
    before2: BoundaryStatus,
    in_set: bool,
    escape_iteration: Option<usize>,
)
    requires
        before1.basin_label == before2.basin_label,
    ensures
        status_after(BoundaryKind::Mandelbrot, before1, in_set, escape_iteration).basin_label
            == before1.basin_label,
        status_after(BoundaryKind::Mandelbrot, before1, in_set, escape_iteration) == status_after(
            BoundaryKind::Mandelbrot,
            before2,
            in_set,
            escape_iteration,
        ),
{
}

/// A custom boundary has no membership test: recording leaves the status as it was.
pub proof fn lemma_custom_boundary_changes_nothing(
    name: String,
    before: BoundaryStatus,
    in_set: bool,
    escape_iteration: Option<usize>,
)
    ensures
        status_after(BoundaryKind::Custom { name }, before, in_set, escape_iteration) == before,
{
}

} // verus!

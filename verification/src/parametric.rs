//! Identifiers and kinds of the parametric constraint system.

use vstd::prelude::*;

verus! {

/// Identifier of a design variable; 0 is the null identifier.
#[derive(Debug, Clone, Copy, PartialEq, Eq, Structural, Hash)]
pub struct VariableId(pub u64);

impl VariableId {
    pub fn new(id: u64) -> (r: Self)
        ensures
            r.0 == id,
    {
        Self(id)
    }

    pub fn null() -> (r: Self)
        ensures
            r.0 == 0,
    {
        Self(0)
    }

    pub fn is_null(&self) -> (r: bool)
        ensures
            r == (self.0 == 0),
    {
        self.0 == 0
    }
}

/// Identifier of a constraint; 0 is the null identifier.
#[derive(Debug, Clone, Copy, PartialEq, Eq, Structural, Hash)]
pub struct ConstraintId(pub u64);

impl ConstraintId {
    pub fn new(id: u64) -> (r: Self)
        ensures
            r.0 == id,
    {
        Self(id)
    }

    pub fn null() -> (r: Self)
        ensures
            r.0 == 0,
    {
        Self(0)
    }

    pub fn is_null(&self) -> (r: bool)
        ensures
            r == (self.0 == 0),
    {
        self.0 == 0
    }
}

/// Kind of geometric constraint.
#[derive(Debug, Clone, Copy, PartialEq, Eq, Structural)]
pub enum ConstraintType {
    Distance,
    Angle,
    Horizontal,
    Vertical,
    Parallel,
    Perpendicular,
    Equal,
    Collinear,
    Coincident,
    Fixed,
    Symmetric,
}

/// Number of targets a constraint of each kind needs: exactly `n`, or at
/// least two for collinearity.
pub open spec fn target_count_ok(t: ConstraintType, n: nat) -> bool {
    match t {
        ConstraintType::Horizontal | ConstraintType::Vertical | ConstraintType::Fixed => n == 1,
        ConstraintType::Collinear => n >= 2,
        ConstraintType::Symmetric => n == 3,
        _ => n == 2,
    }
}

/// Whether a constraint kind carries a numeric value.
pub open spec fn needs_value(t: ConstraintType) -> bool {
    t == ConstraintType::Distance || t == ConstraintType::Angle
}

/// How many targets each kind of constraint takes: one for horizontal,
/// vertical and fixed; two for distance, angle, parallel, perpendicular,
/// equal and coincident; two or more for collinear; three for symmetric
/// (two elements and the axis). Only distance and angle carry a value.
pub proof fn lemma_target_counts(n: nat)
    ensures
        target_count_ok(ConstraintType::Horizontal, n) <==> n == 1,
        target_count_ok(ConstraintType::Vertical, n) <==> n == 1,
        target_count_ok(ConstraintType::Fixed, n) <==> n == 1,
        target_count_ok(ConstraintType::Distance, n) <==> n == 2,
        target_count_ok(ConstraintType::Angle, n) <==> n == 2,
        target_count_ok(ConstraintType::Parallel, n) <==> n == 2,
        target_count_ok(ConstraintType::Perpendicular, n) <==> n == 2,
        target_count_ok(ConstraintType::Equal, n) <==> n == 2,
        target_count_ok(ConstraintType::Coincident, n) <==> n == 2,
        target_count_ok(ConstraintType::Collinear, n) <==> n >= 2,
        target_count_ok(ConstraintType::Symmetric, n) <==> n == 3,
        needs_value(ConstraintType::Distance),
        needs_value(ConstraintType::Angle),
        forall|t: ConstraintType|
            t != ConstraintType::Distance && t != ConstraintType::Angle ==> !#[trigger] needs_value(t),
{
}

/// Whether a constraint with `n` targets, holding a value or not, is well formed.
pub fn constraint_is_valid(t: ConstraintType, n: usize, has_value: bool) -> (r: bool)
    ensures
        r == (target_count_ok(t, n as nat) && (needs_value(t) ==> has_value)),
{
    match t {
        ConstraintType::Distance => n == 2 && has_value,
        ConstraintType::Angle => n == 2 && has_value,
        ConstraintType::Horizontal => n == 1,
        ConstraintType::Vertical => n == 1,
        ConstraintType::Parallel => n == 2,
        ConstraintType::Perpendicular => n == 2,
        ConstraintType::Equal => n == 2,
        ConstraintType::Collinear => n >= 2,
        ConstraintType::Coincident => n == 2,
        ConstraintType::Fixed => n == 1,
        ConstraintType::Symmetric => n == 3,
    }
}

/// Outcome of solving a constraint system.
#[derive(Debug, Clone)]
pub enum SolveResult {
    Success,
    UnderConstrained,
    OverConstrained,
    DidNotConverge,
    Error(String),
}

/// Boolean operation on regions.
#[derive(Debug, Clone, Copy, PartialEq, Eq, Structural)]
pub enum BooleanOp {
    Union,
    Intersection,
    Difference,
    Xor,
}

/// The numeric code of a boolean operation.
pub fn boolean_op_code(op: BooleanOp) -> (r: u32)
    ensures
        r == (match op {
            BooleanOp::Union => 0u32,
            BooleanOp::Intersection => 1u32,
            BooleanOp::Difference => 2u32,
            BooleanOp::Xor => 3u32,
        }),
{
    match op {
        BooleanOp::Union => 0,
        BooleanOp::Intersection => 1,
        BooleanOp::Difference => 2,
        BooleanOp::Xor => 3,
    }
}

/// Outcome of the numeric solver.
#[derive(Debug, Clone, Copy, PartialEq, Eq, Structural)]
pub enum SolverResult {
    Converged,
    DidNotConverge,
    UnderConstrained,
    OverConstrained,
    Failed,
}

/// How a solver outcome is reported by the constraint system.
pub fn solve_result_of(r: SolverResult) -> (s: SolveResult)
    ensures
        match r {
            SolverResult::Converged => s is Success,
            SolverResult::DidNotConverge => s is DidNotConverge,
            SolverResult::UnderConstrained => s is UnderConstrained,
            SolverResult::OverConstrained => s is OverConstrained,
            SolverResult::Failed => s matches SolveResult::Error(m) && m@ == "Solver failed"@,
        },
{
    match r {
        SolverResult::Converged => SolveResult::Success,
        SolverResult::DidNotConverge => SolveResult::DidNotConverge,
        SolverResult::UnderConstrained => SolveResult::UnderConstrained,
        SolverResult::OverConstrained => SolveResult::OverConstrained,
        SolverResult::Failed => SolveResult::Error(String::from_str("Solver failed")),
    }
}

} // verus!

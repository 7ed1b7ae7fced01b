//! Constraints of the common kinds, named after their kind.

use vstd::prelude::*;
use crate::constraint_system::{Constraint, ConstraintTarget};
use crate::parametric::{lemma_target_counts, needs_value, target_count_ok, ConstraintId, ConstraintType};

verus! {

/// What each builder promises: an enabled constraint of the kind, on the
/// targets in order, with the weight, the value and the name given, and no
/// description.
pub open spec fn built<F>(
    c: Constraint<F>,
    id: ConstraintId,
    t: ConstraintType,
    targets: Seq<ConstraintTarget<F>>,
    value: Option<F>,
    weight: F,
    name: Seq<char>,
) -> bool {
    &&& c.id == id
    &&& c.constraint_type == t
    &&& c.targets@ == targets
    &&& c.value == value
    &&& c.weight == weight
    &&& c.enabled
    &&& c.name@ == name
    &&& c.description@ == Seq::<char>::empty()
}

/// A constraint made by a two-target builder is valid: parallel,
/// perpendicular, equal and coincident on any two targets, and distance
/// and angle with their value.
pub proof fn lemma_pair_builders_valid<F>(
    c: Constraint<F>,
    id: ConstraintId,
    t: ConstraintType,
    target1: ConstraintTarget<F>,
    target2: ConstraintTarget<F>,
    value: Option<F>,
    weight: F,
    name: Seq<char>,
)
    requires
        built(c, id, t, seq![target1, target2], value, weight, name),
        t == ConstraintType::Parallel || t == ConstraintType::Perpendicular || t == ConstraintType::Equal || t
            == ConstraintType::Coincident || ((t == ConstraintType::Distance || t == ConstraintType::Angle)
            && value is Some),
    ensures
        c.targets@.len() == 2,
        target_count_ok(c.constraint_type, c.targets@.len()),
        needs_value(c.constraint_type) ==> c.value is Some,
{
    lemma_target_counts(2);
}

/// A constraint made by a one-target builder (horizontal, vertical) is valid.
pub proof fn lemma_single_builders_valid<F>(
    c: Constraint<F>,
    id: ConstraintId,
    t: ConstraintType,
    target: ConstraintTarget<F>,
    weight: F,
    name: Seq<char>,
)
    requires
        built(c, id, t, seq![target], None, weight, name),
        t == ConstraintType::Horizontal || t == ConstraintType::Vertical,
    ensures
        c.targets@.len() == 1,
        target_count_ok(c.constraint_type, c.targets@.len()),
        !needs_value(c.constraint_type),
{
    lemma_target_counts(1);
}

fn pair<F>(t1: ConstraintTarget<F>, t2: ConstraintTarget<F>) -> (v: Vec<ConstraintTarget<F>>)
    ensures
        v@ == seq![t1, t2],
{
    let mut v: Vec<ConstraintTarget<F>> = Vec::new();
    v.push(t1);
    v.push(t2);
    v
}

fn single<F>(t: ConstraintTarget<F>) -> (v: Vec<ConstraintTarget<F>>)
    ensures
        v@ == seq![t],
{
    let mut v: Vec<ConstraintTarget<F>> = Vec::new();
    v.push(t);
    v
}

/// A distance between two targets.
pub fn distance<F>(id: ConstraintId, target1: ConstraintTarget<F>, target2: ConstraintTarget<F>, length: F, weight: F) -> (c: Constraint<F>)
    ensures
        built(c, id, ConstraintType::Distance, seq![target1, target2], Some(length), weight, "Distance"@),
{
    Constraint::with_id(id, ConstraintType::Distance, pair(target1, target2), weight).with_value(length).with_name("Distance")
}

/// An angle between two targets.
pub fn angle<F>(id: ConstraintId, target1: ConstraintTarget<F>, target2: ConstraintTarget<F>, degrees: F, weight: F) -> (c: Constraint<F>)
    ensures
        built(c, id, ConstraintType::Angle, seq![target1, target2], Some(degrees), weight, "Angle"@),
{
    Constraint::with_id(id, ConstraintType::Angle, pair(target1, target2), weight).with_value(degrees).with_name("Angle")
}

/// A horizontal target.
pub fn horizontal<F>(id: ConstraintId, target: ConstraintTarget<F>, weight: F) -> (c: Constraint<F>)
    ensures
        built(c, id, ConstraintType::Horizontal, seq![target], None, weight, "Horizontal"@),
{
    Constraint::with_id(id, ConstraintType::Horizontal, single(target), weight).with_name("Horizontal")
}

/// A vertical target.
pub fn vertical<F>(id: ConstraintId, target: ConstraintTarget<F>, weight: F) -> (c: Constraint<F>)
    ensures
        built(c, id, ConstraintType::Vertical, seq![target], None, weight, "Vertical"@),
{
    Constraint::with_id(id, ConstraintType::Vertical, single(target), weight).with_name("Vertical")
}

/// Two parallel targets.
pub fn parallel<F>(id: ConstraintId, target1: ConstraintTarget<F>, target2: ConstraintTarget<F>, weight: F) -> (c: Constraint<F>)
    ensures
        built(c, id, ConstraintType::Parallel, seq![target1, target2], None, weight, "Parallel"@),
{
    Constraint::with_id(id, ConstraintType::Parallel, pair(target1, target2), weight).with_name("Parallel")
}

/// Two perpendicular targets.
pub fn perpendicular<F>(id: ConstraintId, target1: ConstraintTarget<F>, target2: ConstraintTarget<F>, weight: F) -> (c: Constraint<F>)
    ensures
        built(c, id, ConstraintType::Perpendicular, seq![target1, target2], None, weight, "Perpendicular"@),
{
    Constraint::with_id(id, ConstraintType::Perpendicular, pair(target1, target2), weight).with_name("Perpendicular")
}

/// Two equal targets.
pub fn equal<F>(id: ConstraintId, target1: ConstraintTarget<F>, target2: ConstraintTarget<F>, weight: F) -> (c: Constraint<F>)
    ensures
        built(c, id, ConstraintType::Equal, seq![target1, target2], None, weight, "Equal"@),
{
    Constraint::with_id(id, ConstraintType::Equal, pair(target1, target2), weight).with_name("Equal")
}

/// Two coincident targets.
pub fn coincident<F>(id: ConstraintId, target1: ConstraintTarget<F>, target2: ConstraintTarget<F>, weight: F) -> (c: Constraint<F>)
    ensures
        built(c, id, ConstraintType::Coincident, seq![target1, target2], None, weight, "Coincident"@),
{
    Constraint::with_id(id, ConstraintType::Coincident, pair(target1, target2), weight).with_name("Coincident")
}

} // verus!

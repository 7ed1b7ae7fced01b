//! Variables, constraints and the indices that find the constraints acting
//! on a variable or an entity.
//!
//! Numbers (a variable's value, a constraint's value or weight, constant
//! targets) are of a type `F` chosen by the caller; the bookkeeping here
//! only carries them. Solving happens outside.

use vstd::prelude::*;
use std::collections::HashMap;
use vstd::std_specs::iter::IteratorSpec;
use crate::entity::EntityId;
use crate::parametric::{constraint_is_valid, needs_value, target_count_ok, ConstraintId, ConstraintType, VariableId};

verus! {

broadcast use vstd::std_specs::hash::group_hash_axioms;

/// What a constraint acts on.
#[derive(Debug, Clone)]
pub enum ConstraintTarget<F> {
    Point(EntityId),
    Line(EntityId),
    Circle(EntityId),
    Arc(EntityId),
    Variable(VariableId),
    Constant(F),
}

/// The variable a target names, if it names one.
pub open spec fn target_variable<F>(t: ConstraintTarget<F>) -> Option<u64> {
    match t {
        ConstraintTarget::Variable(v) => Some(v.0),
        _ => None,
    }
}

/// The entity a target names, if it names one.
pub open spec fn target_entity<F>(t: ConstraintTarget<F>) -> Option<u64> {
    match t {
        ConstraintTarget::Point(e) => Some(e.0),
        ConstraintTarget::Line(e) => Some(e.0),
        ConstraintTarget::Circle(e) => Some(e.0),
        ConstraintTarget::Arc(e) => Some(e.0),
        _ => None,
    }
}

/// A design parameter.
#[derive(Debug, Clone)]
pub struct Variable<F> {
    pub id: VariableId,
    pub name: String,
    pub value: F,
    pub min_value: Option<F>,
    pub max_value: Option<F>,
    pub locked: bool,
    pub description: String,
}

impl<F> Variable<F> {
    /// An unlocked variable without bounds or description.
    pub fn with_id(id: VariableId, name: String, value: F) -> (v: Self)
        ensures
            v.id == id,
            v.name@ == name@,
            v.value == value,
            v.min_value is None,
            v.max_value is None,
            !v.locked,
            v.description@ == Seq::<char>::empty(),
    {
        Variable {
            id,
            name,
            value,
            min_value: None,
            max_value: None,
            locked: false,
            description: String::new(),
        }
    }

    /// Sets the bounds the value must stay within.
    pub fn set_range(&mut self, min: Option<F>, max: Option<F>)
        ensures
            final(self).min_value == min,
            final(self).max_value == max,
            final(self).id == old(self).id,
            final(self).value == old(self).value,
            final(self).locked == old(self).locked,
    {
        self.min_value = min;
        self.max_value = max;
    }

    pub fn set_locked(&mut self, locked: bool)
        ensures
            final(self).locked == locked,
            final(self).id == old(self).id,
            final(self).value == old(self).value,
            final(self).min_value == old(self).min_value,
            final(self).max_value == old(self).max_value,
    {
        self.locked = locked;
    }
}

/// A relation between geometric elements.
#[derive(Debug, Clone)]
pub struct Constraint<F> {
    pub id: ConstraintId,
    pub constraint_type: ConstraintType,
    pub targets: Vec<ConstraintTarget<F>>,
    pub value: Option<F>,
    pub weight: F,
    pub enabled: bool,
    pub name: String,
    pub description: String,
}

impl<F> Constraint<F> {
    /// An enabled constraint without value, name or description.
    pub fn with_id(id: ConstraintId, constraint_type: ConstraintType, targets: Vec<ConstraintTarget<F>>, weight: F) -> (c: Self)
        ensures
            c.id == id,
            c.constraint_type == constraint_type,
            c.targets@ == targets@,
            c.value is None,
            c.weight == weight,
            c.enabled,
            c.name@ == Seq::<char>::empty(),
            c.description@ == Seq::<char>::empty(),
    {
        Constraint {
            id,
            constraint_type,
            targets,
            value: None,
            weight,
            enabled: true,
            name: String::new(),
            description: String::new(),
        }
    }

    /// The constraint with a value.
    pub fn with_value(self, value: F) -> (c: Self)
        ensures
            c == (Constraint { value: Some(value), ..self }),
    {
        Constraint { value: Some(value), ..self }
    }

    /// The constraint with a weight.
    pub fn with_weight(self, weight: F) -> (c: Self)
        ensures
            c == (Constraint { weight, ..self }),
    {
        Constraint { weight, ..self }
    }

    /// The constraint with a name.
    pub fn with_name(self, name: &str) -> (c: Self)
        ensures
            c.name@ == name@,
            c.id == self.id,
            c.constraint_type == self.constraint_type,
            c.targets == self.targets,
            c.value == self.value,
            c.weight == self.weight,
            c.enabled == self.enabled,
            c.description == self.description,
    {
        Constraint { name: name.to_string(), ..self }
    }

    pub fn set_enabled(&mut self, enabled: bool)
        ensures
            final(self).enabled == enabled,
            final(self).id == old(self).id,
            final(self).targets@ == old(self).targets@,
    {
        self.enabled = enabled;
    }

    /// Whether the constraint has as many targets as its kind needs and a
    /// value where its kind needs one.
    pub fn is_valid(&self) -> (r: bool)
        ensures
            r == (target_count_ok(self.constraint_type, self.targets@.len()) && (needs_value(
                self.constraint_type,
            ) ==> self.value is Some)),
    {
        constraint_is_valid(self.constraint_type, self.targets.len(), self.value.is_some())
    }
}

/// The targets without those naming a variable.
pub open spec fn without_variable<F>(ts: Seq<ConstraintTarget<F>>, v: u64) -> Seq<ConstraintTarget<F>>
    decreases ts.len(),
{
    if ts.len() == 0 {
        ts
    } else {
        let rest = without_variable(ts.drop_last(), v);
        if target_variable(ts.last()) == Some(v) {
            rest
        } else {
            rest.push(ts.last())
        }
    }
}

/// The ids without one.
pub open spec fn without_id(ids: Seq<ConstraintId>, c: u64) -> Seq<ConstraintId>
    decreases ids.len(),
{
    if ids.len() == 0 {
        ids
    } else {
        let rest = without_id(ids.drop_last(), c);
        if ids.last().0 == c {
            rest
        } else {
            rest.push(ids.last())
        }
    }
}

/// The index once the key that a target names (if any) has recorded a
/// constraint at the end of its list.
pub open spec fn index_push_step<F>(
    before: Map<u64, Seq<ConstraintId>>,
    t: ConstraintTarget<F>,
    c: ConstraintId,
    by_variable: bool,
) -> Map<u64, Seq<ConstraintId>> {
    match key_of(t, by_variable) {
        Some(k) => before.insert(k, ids_for(before, k).push(c)),
        None => before,
    }
}

/// The index after recording a constraint for the keys its targets name,
/// target by target.
pub open spec fn index_after<F>(
    idx: Map<u64, Seq<ConstraintId>>,
    ts: Seq<ConstraintTarget<F>>,
    c: ConstraintId,
    by_variable: bool,
) -> Map<u64, Seq<ConstraintId>>
    decreases ts.len(),
{
    if ts.len() == 0 {
        idx
    } else {
        index_push_step(index_after(idx, ts.drop_last(), c, by_variable), ts.last(), c, by_variable)
    }
}

/// Whether a target of the list names the key.
pub open spec fn names_key<F>(ts: Seq<ConstraintTarget<F>>, k: u64, by_variable: bool) -> bool {
    exists|i: int| 0 <= i < ts.len() && #[trigger] key_of(ts[i], by_variable) == Some(k)
}

/// The key of the variable index, or of the entity index, that a target names.
pub open spec fn key_of<F>(t: ConstraintTarget<F>, by_variable: bool) -> Option<u64> {
    if by_variable {
        target_variable(t)
    } else {
        target_entity(t)
    }
}

/// A key is named by the first `i + 1` targets when it is named by the
/// first `i` or by target `i`.
proof fn lemma_names_key_step<F>(ts: Seq<ConstraintTarget<F>>, i: int, k: u64, by_variable: bool)
    requires
        0 <= i < ts.len(),
    ensures
        names_key(ts.take(i + 1), k, by_variable) <==> (names_key(ts.take(i), k, by_variable)
            || key_of(ts[i], by_variable) == Some(k)),
{
    let p = ts.take(i);
    let q = ts.take(i + 1);
    if names_key(q, k, by_variable) {
        let j = choose|j: int| 0 <= j < q.len() && #[trigger] key_of(q[j], by_variable) == Some(k);
        if j < i {
            assert(p[j] == q[j]);
        }
    }
    if names_key(p, k, by_variable) {
        let j = choose|j: int| 0 <= j < p.len() && #[trigger] key_of(p[j], by_variable) == Some(k);
        assert(q[j] == p[j]);
    }
    if key_of(ts[i], by_variable) == Some(k) {
        assert(q[i] == ts[i]);
    }
}

/// The index after forgetting a constraint for the keys its targets name.
pub open spec fn index_without<F>(
    idx: Map<u64, Seq<ConstraintId>>,
    ts: Seq<ConstraintTarget<F>>,
    c: u64,
    by_variable: bool,
) -> Map<u64, Seq<ConstraintId>> {
    Map::new(
        |k: u64| idx.contains_key(k),
        |k: u64|
            if names_key(ts, k, by_variable) {
                without_id(idx[k], c)
            } else {
                idx[k]
            },
    )
}

/// The constraints an index lists that exist, in the listed order.
pub open spec fn listed<F>(ids: Seq<ConstraintId>, cons: Map<u64, Constraint<F>>) -> Seq<Constraint<F>>
    decreases ids.len(),
{
    if ids.len() == 0 {
        Seq::empty()
    } else {
        let rest = listed(ids.drop_last(), cons);
        if cons.contains_key(ids.last().0) {
            rest.push(cons[ids.last().0])
        } else {
            rest
        }
    }
}

/// Whether an id list holds a constraint id.
pub open spec fn id_listed(ids: Seq<ConstraintId>, k: u64) -> bool {
    exists|j: int| 0 <= j < ids.len() && #[trigger] ids[j].0 == k
}

/// The constraints after dropping a variable from the targets of the
/// listed ones: the same constraints, the listed ones without the targets
/// naming the variable.
pub open spec fn stripped_of<F>(
    after: Map<u64, Constraint<F>>,
    before: Map<u64, Constraint<F>>,
    ids: Seq<ConstraintId>,
    v: u64,
) -> bool {
    &&& after.dom() == before.dom()
    &&& forall|k: u64| #[trigger] before.contains_key(k) ==> {
        &&& same_but_targets(after[k], before[k])
        &&& after[k].targets@ == if id_listed(ids, k) {
            without_variable(before[k].targets@, v)
        } else {
            before[k].targets@
        }
    }
}

/// The ids an index records for a key; none when it has no entry.
pub open spec fn ids_for(idx: Map<u64, Seq<ConstraintId>>, k: u64) -> Seq<ConstraintId> {
    if idx.contains_key(k) {
        idx[k]
    } else {
        Seq::empty()
    }
}

/// Two constraints that differ at most in their targets.
pub open spec fn same_but_targets<F>(a: Constraint<F>, b: Constraint<F>) -> bool {
    &&& a.id == b.id
    &&& a.constraint_type == b.constraint_type
    &&& a.value == b.value
    &&& a.weight == b.weight
    &&& a.enabled == b.enabled
    &&& a.name == b.name
    &&& a.description == b.description
}


/// Appends a constraint id to the list of a key.
fn push_index(map: &mut HashMap<u64, Vec<ConstraintId>>, k: u64, id: ConstraintId)
    ensures
        final(map)@.map_values(|v: Vec<ConstraintId>| v@) == old(map)@.map_values(
            |v: Vec<ConstraintId>| v@,
        ).insert(
            k,
            if old(map)@.contains_key(k) {
                old(map)@[k]@
            } else {
                Seq::empty()
            }.push(id),
        ),
{
    let ghost before = map@.map_values(|v: Vec<ConstraintId>| v@);
    match map.remove(&k) {
        Some(mut v) => {
            v.push(id);
            map.insert(k, v);
        },
        None => {
            let mut v: Vec<ConstraintId> = Vec::new();
            v.push(id);
            map.insert(k, v);
        },
    }
    proof {
        let after = map@.map_values(|v: Vec<ConstraintId>| v@);
        assert(after =~= before.insert(
            k,
            if old(map)@.contains_key(k) {
                old(map)@[k]@
            } else {
                Seq::empty()
            }.push(id),
        ));
    }
}

/// The ids other than one, in order.
fn retain_other(v: Vec<ConstraintId>, c: u64) -> (r: Vec<ConstraintId>)
    ensures
        r@ == without_id(v@, c),
{
    let mut r: Vec<ConstraintId> = Vec::new();
    let mut i: usize = 0;
    while i < v.len()
        invariant
            i <= v@.len(),
            r@ == without_id(v@.take(i as int), c),
        decreases v@.len() - i,
    {
        assert(v@.take(i + 1).drop_last() =~= v@.take(i as int));
        if v[i].0 != c {
            r.push(v[i]);
        }
        i = i + 1;
    }
    assert(v@.take(v@.len() as int) =~= v@);
    r
}

/// Removing an id twice is removing it once.
proof fn lemma_without_id_twice(ids: Seq<ConstraintId>, c: u64)
    ensures
        without_id(without_id(ids, c), c) == without_id(ids, c),
    decreases ids.len(),
{
    if ids.len() > 0 {
        lemma_without_id_twice(ids.drop_last(), c);
        let rest = without_id(ids.drop_last(), c);
        if ids.last().0 != c {
            assert(rest.push(ids.last()).drop_last() =~= rest);
        }
    }
}

/// Removes an id from the list of a key, if the key has one.
fn drop_from_index(map: &mut HashMap<u64, Vec<ConstraintId>>, k: u64, c: u64)
    ensures
        final(map)@.map_values(|v: Vec<ConstraintId>| v@) == (if old(map)@.contains_key(k) {
            old(map)@.map_values(|v: Vec<ConstraintId>| v@).insert(k, without_id(old(map)@[k]@, c))
        } else {
            old(map)@.map_values(|v: Vec<ConstraintId>| v@)
        }),
{
    let ghost before = map@.map_values(|v: Vec<ConstraintId>| v@);
    match map.remove(&k) {
        Some(v) => {
            let w = retain_other(v, c);
            map.insert(k, w);
            proof {
                let after = map@.map_values(|v: Vec<ConstraintId>| v@);
                assert(after =~= before.insert(k, without_id(old(map)@[k]@, c)));
            }
        },
        None => {
            assert(map@ == old(map)@);
        },
    }
}

/// The targets other than those naming a variable, in order.
fn strip_variable<F>(ts: Vec<ConstraintTarget<F>>, v: u64) -> (r: Vec<ConstraintTarget<F>>)
    ensures
        r@ == without_variable(ts@, v),
{
    let mut ts = ts;
    let ghost all = ts@;
    let mut rev: Vec<ConstraintTarget<F>> = Vec::new();
    // take the targets off the end, keeping those that stay
    while ts.len() > 0
        invariant
            all == ts@ + rev@.reverse(),
            without_variable(all, v) == without_variable(ts@, v) + without_variable(rev@.reverse(), v),
        decreases ts@.len(),
    {
        let ghost before_ts = ts@;
        let ghost before_rev = rev@;
        let t = ts.pop().unwrap();
        proof {
            assert(before_ts == ts@.push(t));
            assert(rev@.push(t).reverse() =~= seq![t] + before_rev.reverse());
        }
        rev.push(t);
        proof {
            lemma_without_variable_split(ts@, seq![t] + before_rev.reverse(), v);
            lemma_without_variable_split(before_ts, before_rev.reverse(), v);
            assert(ts@ + rev@.reverse() =~= before_ts + before_rev.reverse());
            assert(ts@.push(t) =~= before_ts);
            lemma_without_variable_split(seq![t], before_rev.reverse(), v);
            lemma_without_variable_split(ts@, seq![t], v);
            assert(ts@ + seq![t] =~= before_ts);
            assert(seq![t] + before_rev.reverse() =~= rev@.reverse());
        }
    }
    assert(ts@ + rev@.reverse() =~= rev@.reverse());
    assert(without_variable(ts@, v) =~= Seq::<ConstraintTarget<F>>::empty());
    let mut r: Vec<ConstraintTarget<F>> = Vec::new();
    while rev.len() > 0
        invariant
            without_variable(all, v) == without_variable(r@, v) + without_variable(rev@.reverse(), v),
            r@ == without_variable(r@, v),
        decreases rev@.len(),
    {
        let ghost before_rev = rev@;
        let ghost before_r = r@;
        let t = rev.pop().unwrap();
        proof {
            assert(before_rev == rev@.push(t));
            assert(before_rev.reverse() =~= seq![t] + rev@.reverse());
            lemma_without_variable_split(seq![t], rev@.reverse(), v);
            reveal_with_fuel(without_variable, 2);
            assert(seq![t].drop_last() =~= Seq::<ConstraintTarget<F>>::empty());
        }
        let keep = match &t {
            ConstraintTarget::Variable(x) => x.0 != v,
            _ => true,
        };
        if keep {
            r.push(t);
            proof {
                lemma_without_variable_split(before_r, seq![t], v);
                assert(seq![t].drop_last() =~= Seq::<ConstraintTarget<F>>::empty());
                assert(before_r + seq![t] =~= r@);
            }
        } else {
            proof {
                lemma_without_variable_split(before_r, seq![t], v);
            }
        }
    }
    assert(rev@.reverse() =~= Seq::<ConstraintTarget<F>>::empty());
    assert(without_variable(all, v) =~= without_variable(r@, v));
    r
}

/// Filtering a concatenation filters each part.
proof fn lemma_without_variable_split<F>(a: Seq<ConstraintTarget<F>>, b: Seq<ConstraintTarget<F>>, v: u64)
    ensures
        without_variable(a + b, v) == without_variable(a, v) + without_variable(b, v),
    decreases b.len(),
{
    if b.len() == 0 {
        assert(a + b =~= a);
        assert(without_variable(a, v) + without_variable(b, v) =~= without_variable(a, v));
    } else {
        lemma_without_variable_split(a, b.drop_last(), v);
        assert((a + b).drop_last() =~= a + b.drop_last());
        assert((a + b).last() == b.last());
        if target_variable(b.last()) != Some(v) {
            assert(without_variable(a, v) + without_variable(b.drop_last(), v).push(b.last())
                =~= (without_variable(a, v) + without_variable(b.drop_last(), v)).push(b.last()));
        }
    }
}

/// Filtering twice is filtering once.
proof fn lemma_without_variable_twice<F>(ts: Seq<ConstraintTarget<F>>, v: u64)
    ensures
        without_variable(without_variable(ts, v), v) == without_variable(ts, v),
    decreases ts.len(),
{
    if ts.len() > 0 {
        lemma_without_variable_twice(ts.drop_last(), v);
        let rest = without_variable(ts.drop_last(), v);
        if target_variable(ts.last()) != Some(v) {
            assert(rest.push(ts.last()).drop_last() =~= rest);
        }
    }
}

/// The index once the key that target `i` names (if any) has dropped a
/// constraint.
pub open spec fn index_drop_step<F>(
    before: Map<u64, Seq<ConstraintId>>,
    t: ConstraintTarget<F>,
    c: u64,
    by_variable: bool,
) -> Map<u64, Seq<ConstraintId>> {
    match key_of(t, by_variable) {
        Some(k) => if before.contains_key(k) {
            before.insert(k, without_id(before[k], c))
        } else {
            before
        },
        None => before,
    }
}

/// Forgetting a constraint for the keys of the first `i` targets and then
/// for the key of target `i` forgets it for the keys of the first `i + 1`.
proof fn lemma_index_without_step<F>(
    idx: Map<u64, Seq<ConstraintId>>,
    ts: Seq<ConstraintTarget<F>>,
    i: int,
    c: u64,
    by_variable: bool,
    before: Map<u64, Seq<ConstraintId>>,
    after: Map<u64, Seq<ConstraintId>>,
)
    requires
        0 <= i < ts.len(),
        before == index_without(idx, ts.take(i), c, by_variable),
        after == index_drop_step(before, ts[i], c, by_variable),
    ensures
        after == index_without(idx, ts.take(i + 1), c, by_variable),
{
    let q = ts.take(i + 1);
    assert forall|k: u64| idx.contains_key(k) implies #[trigger] index_without(idx, q, c, by_variable)[k]
        == after[k] by {
        lemma_names_key_step(ts, i, k, by_variable);
        lemma_without_id_twice(idx[k], c);
    }
    assert(after =~= index_without(idx, q, c, by_variable));
}

/// Every constraint is listed under each key that one of its targets names.
pub open spec fn indexed_by<F>(cons: Map<u64, Constraint<F>>, idx: Map<u64, Seq<ConstraintId>>, by_variable: bool) -> bool {
    forall|k: u64, i: int|
        #![trigger key_of(cons[k].targets@[i], by_variable)]
        cons.contains_key(k) && 0 <= i < cons[k].targets@.len() && key_of(cons[k].targets@[i], by_variable) is Some
            ==> id_listed(ids_for(idx, key_of(cons[k].targets@[i], by_variable)->0), k)
}

/// A listed id stays listed when another one is appended.
proof fn lemma_listed_push(ids: Seq<ConstraintId>, k: u64, c: ConstraintId)
    requires
        id_listed(ids, k),
    ensures
        id_listed(ids.push(c), k),
{
    let j = choose|j: int| 0 <= j < ids.len() && #[trigger] ids[j].0 == k;
    assert(ids.push(c)[j] == ids[j]);
}

/// Recording a constraint keeps what was listed.
proof fn lemma_index_after_keeps<F>(
    idx: Map<u64, Seq<ConstraintId>>,
    ts: Seq<ConstraintTarget<F>>,
    c: ConstraintId,
    by_variable: bool,
    w: u64,
    k: u64,
)
    requires
        id_listed(ids_for(idx, w), k),
    ensures
        id_listed(ids_for(index_after(idx, ts, c, by_variable), w), k),
    decreases ts.len(),
{
    if ts.len() > 0 {
        let before = index_after(idx, ts.drop_last(), c, by_variable);
        lemma_index_after_keeps(idx, ts.drop_last(), c, by_variable, w, k);
        if key_of(ts.last(), by_variable) == Some(w) {
            lemma_listed_push(ids_for(before, w), k, c);
        }
    }
}

/// Recording a constraint lists it under each key its targets name.
proof fn lemma_index_after_lists<F>(
    idx: Map<u64, Seq<ConstraintId>>,
    ts: Seq<ConstraintTarget<F>>,
    c: ConstraintId,
    by_variable: bool,
    i: int,
)
    requires
        0 <= i < ts.len(),
        key_of(ts[i], by_variable) is Some,
    ensures
        id_listed(ids_for(index_after(idx, ts, c, by_variable), key_of(ts[i], by_variable)->0), c.0),
    decreases ts.len(),
{
    let w = key_of(ts[i], by_variable)->0;
    let before = index_after(idx, ts.drop_last(), c, by_variable);
    if i == ts.len() - 1 {
        let l = ids_for(before, w).push(c);
        assert(l[l.len() - 1].0 == c.0);
    } else {
        assert(ts.drop_last()[i] == ts[i]);
        lemma_index_after_lists(idx, ts.drop_last(), c, by_variable, i);
        if key_of(ts.last(), by_variable) == Some(w) {
            lemma_listed_push(ids_for(before, w), c.0, c);
        }
    }
}

/// Removing an id keeps the others.
proof fn lemma_without_id_keeps(ids: Seq<ConstraintId>, c: u64, k: u64)
    requires
        id_listed(ids, k),
        k != c,
    ensures
        id_listed(without_id(ids, c), k),
    decreases ids.len(),
{
    let rest = without_id(ids.drop_last(), c);
    if ids.last().0 == k {
        assert(rest.push(ids.last())[rest.len() as int].0 == k);
    } else {
        let j = choose|j: int| 0 <= j < ids.len() && #[trigger] ids[j].0 == k;
        assert(ids.drop_last()[j] == ids[j]);
        lemma_without_id_keeps(ids.drop_last(), c, k);
        if ids.last().0 != c {
            lemma_listed_push(rest, k, ids.last());
        }
    }
}

/// No target left names the variable, and each one left was a target before.
proof fn lemma_without_variable_targets<F>(ts: Seq<ConstraintTarget<F>>, v: u64, i: int)
    requires
        0 <= i < without_variable(ts, v).len(),
    ensures
        target_variable(without_variable(ts, v)[i]) != Some(v),
        exists|j: int| 0 <= j < ts.len() && #[trigger] ts[j] == without_variable(ts, v)[i],
    decreases ts.len(),
{
    let rest = without_variable(ts.drop_last(), v);
    if target_variable(ts.last()) != Some(v) && i == rest.len() {
        assert(ts[ts.len() - 1] == without_variable(ts, v)[i]);
    } else {
        assert(without_variable(ts, v)[i] == rest[i]);
        lemma_without_variable_targets(ts.drop_last(), v, i);
        let j = choose|j: int| 0 <= j < ts.drop_last().len() && #[trigger] ts.drop_last()[j] == rest[i];
        assert(ts[j] == ts.drop_last()[j]);
    }
}

/// Adding a constraint, and recording it, keeps every constraint recorded.
proof fn lemma_add_keeps_index<F>(
    cons: Map<u64, Constraint<F>>,
    idx: Map<u64, Seq<ConstraintId>>,
    c: Constraint<F>,
    by_variable: bool,
)
    requires
        indexed_by(cons, idx, by_variable),
    ensures
        indexed_by(cons.insert(c.id.0, c), index_after(idx, c.targets@, c.id, by_variable), by_variable),
{
    let cons2 = cons.insert(c.id.0, c);
    let idx2 = index_after(idx, c.targets@, c.id, by_variable);
    assert forall|k: u64, i: int|
        cons2.contains_key(k) && 0 <= i < cons2[k].targets@.len() && #[trigger] key_of(cons2[k].targets@[i], by_variable) is Some
        implies id_listed(ids_for(idx2, key_of(cons2[k].targets@[i], by_variable)->0), k) by {
        if k == c.id.0 {
            lemma_index_after_lists(idx, c.targets@, c.id, by_variable, i);
        } else {
            assert(key_of(cons[k].targets@[i], by_variable) is Some);
            lemma_index_after_keeps(idx, c.targets@, c.id, by_variable, key_of(cons[k].targets@[i], by_variable)->0, k);
        }
    }
}

/// Removing a constraint, and forgetting it, keeps the others recorded.
proof fn lemma_remove_keeps_index<F>(
    cons: Map<u64, Constraint<F>>,
    idx: Map<u64, Seq<ConstraintId>>,
    cid: u64,
    ts: Seq<ConstraintTarget<F>>,
    by_variable: bool,
)
    requires
        indexed_by(cons, idx, by_variable),
    ensures
        indexed_by(cons.remove(cid), index_without(idx, ts, cid, by_variable), by_variable),
{
    let cons2 = cons.remove(cid);
    let idx2 = index_without(idx, ts, cid, by_variable);
    assert forall|k: u64, i: int|
        cons2.contains_key(k) && 0 <= i < cons2[k].targets@.len() && #[trigger] key_of(cons2[k].targets@[i], by_variable) is Some
        implies id_listed(ids_for(idx2, key_of(cons2[k].targets@[i], by_variable)->0), k) by {
        let w = key_of(cons[k].targets@[i], by_variable)->0;
        assert(id_listed(ids_for(idx, w), k));
        if idx.contains_key(w) && names_key(ts, w, by_variable) {
            lemma_without_id_keeps(idx[w], cid, k);
        }
    }
}

/// Dropping a variable from the constraints recorded for it, and its
/// entry, keeps every constraint recorded, and no constraint names it.
proof fn lemma_strip_keeps_index<F>(
    before: Map<u64, Constraint<F>>,
    after: Map<u64, Constraint<F>>,
    vi: Map<u64, Seq<ConstraintId>>,
    ei: Map<u64, Seq<ConstraintId>>,
    v: u64,
)
    requires
        indexed_by(before, vi, true),
        indexed_by(before, ei, false),
        stripped_of(after, before, ids_for(vi, v), v),
    ensures
        indexed_by(after, vi.remove(v), true),
        indexed_by(after, ei, false),
        forall|k: u64| #[trigger] after.contains_key(k) ==> !names_key(after[k].targets@, v, true),
{
    let ids = ids_for(vi, v);
    assert forall|k: u64, i: int|
        after.contains_key(k) && 0 <= i < after[k].targets@.len()
        implies before[k].targets@.contains(#[trigger] after[k].targets@[i])
            && target_variable(after[k].targets@[i]) != Some(v) by {
        if id_listed(ids, k) {
            lemma_without_variable_targets(before[k].targets@, v, i);
        } else {
            assert(before[k].targets@[i] == after[k].targets@[i]);
            if target_variable(after[k].targets@[i]) == Some(v) {
                assert(key_of(before[k].targets@[i], true) == Some(v));
            }
        }
    }
    assert forall|k: u64, b: bool, i: int|
        after.contains_key(k) && 0 <= i < after[k].targets@.len() && #[trigger] key_of(after[k].targets@[i], b) is Some
        implies id_listed(ids_for(if b { vi.remove(v) } else { ei }, key_of(after[k].targets@[i], b)->0), k) by {
        let t = after[k].targets@[i];
        assert(before[k].targets@.contains(t));
        let j = choose|j: int| 0 <= j < before[k].targets@.len() && before[k].targets@[j] == t;
        assert(key_of(before[k].targets@[j], b) is Some);
    }
    assert forall|k: u64| #[trigger] after.contains_key(k) implies !names_key(after[k].targets@, v, true) by {
        if names_key(after[k].targets@, v, true) {
            let i = choose|i: int| 0 <= i < after[k].targets@.len() && #[trigger] key_of(after[k].targets@[i], true) == Some(v);
            assert(before[k].targets@.contains(after[k].targets@[i]));
        }
    }
}

/// An id with no constraint behind it changes no listing when removed.
proof fn lemma_listed_without_absent<F>(ids: Seq<ConstraintId>, cons: Map<u64, Constraint<F>>, c: u64)
    requires
        !cons.contains_key(c),
    ensures
        listed(without_id(ids, c), cons) == listed(ids, cons),
    decreases ids.len(),
{
    if ids.len() > 0 {
        lemma_listed_without_absent(ids.drop_last(), cons, c);
        let rest = without_id(ids.drop_last(), c);
        if ids.last().0 != c {
            assert(rest.push(ids.last()).drop_last() =~= rest);
        }
    }
}

/// Recording an id with no constraint behind it changes no listing.
proof fn lemma_listed_after_absent<F>(
    idx: Map<u64, Seq<ConstraintId>>,
    ts: Seq<ConstraintTarget<F>>,
    c: ConstraintId,
    by_variable: bool,
    cons: Map<u64, Constraint<F>>,
    k: u64,
)
    requires
        !cons.contains_key(c.0),
    ensures
        listed(ids_for(index_after(idx, ts, c, by_variable), k), cons) == listed(ids_for(idx, k), cons),
    decreases ts.len(),
{
    if ts.len() > 0 {
        lemma_listed_after_absent(idx, ts.drop_last(), c, by_variable, cons, k);
        let before = ids_for(index_after(idx, ts.drop_last(), c, by_variable), k);
        if key_of(ts.last(), by_variable) == Some(k) {
            assert(before.push(c).drop_last() =~= before);
        }
    }
}

/// Adding a constraint that was not there and removing it again gives
/// every variable and every entity the list of constraints it had.
pub proof fn lemma_remove_constraint_undoes_add<F>(
    cons: Map<u64, Constraint<F>>,
    idx: Map<u64, Seq<ConstraintId>>,
    c: Constraint<F>,
    by_variable: bool,
    k: u64,
)
    requires
        !cons.contains_key(c.id.0),
    ensures
        listed(
            ids_for(index_without(index_after(idx, c.targets@, c.id, by_variable), c.targets@, c.id.0, by_variable), k),
            cons.insert(c.id.0, c).remove(c.id.0),
        ) == listed(ids_for(idx, k), cons),
{
    let mid = index_after(idx, c.targets@, c.id, by_variable);
    assert(cons.insert(c.id.0, c).remove(c.id.0) =~= cons);
    lemma_listed_after_absent(idx, c.targets@, c.id, by_variable, cons, k);
    lemma_listed_without_absent(ids_for(mid, k), cons, c.id.0);
}

/// Variables and constraints, with the constraints of each variable and
/// of each entity.
pub struct ConstraintSystem<F> {
    variables: HashMap<u64, Variable<F>>,
    constraints: HashMap<u64, Constraint<F>>,
    variable_constraints: HashMap<u64, Vec<ConstraintId>>,
    entity_constraints: HashMap<u64, Vec<ConstraintId>>,
}

impl<F> ConstraintSystem<F> {
    /// The variables by id.
    pub closed spec fn vars(&self) -> Map<u64, Variable<F>> {
        self.variables@
    }

    /// The constraints by id.
    pub closed spec fn cons(&self) -> Map<u64, Constraint<F>> {
        self.constraints@
    }

    /// The constraints recorded for each variable.
    pub closed spec fn var_index(&self) -> Map<u64, Seq<ConstraintId>> {
        self.variable_constraints@.map_values(|v: Vec<ConstraintId>| v@)
    }

    /// The constraints recorded for each entity.
    pub closed spec fn entity_index(&self) -> Map<u64, Seq<ConstraintId>> {
        self.entity_constraints@.map_values(|v: Vec<ConstraintId>| v@)
    }

    /// Each variable and constraint is stored under its own id, and each
    /// constraint is recorded for every variable and entity it names.
    pub closed spec fn wf(&self) -> bool {
        &&& forall|k: u64| #[trigger] self.variables@.contains_key(k) ==> self.variables@[k].id.0 == k
        &&& forall|k: u64| #[trigger] self.constraints@.contains_key(k) ==> self.constraints@[k].id.0 == k
        &&& indexed_by(self.cons(), self.var_index(), true)
        &&& indexed_by(self.cons(), self.entity_index(), false)
    }

    pub fn new() -> (s: Self)
        ensures
            s.wf(),
            s.vars() == Map::<u64, Variable<F>>::empty(),
            s.cons() == Map::<u64, Constraint<F>>::empty(),
            s.var_index() == Map::<u64, Seq<ConstraintId>>::empty(),
            s.entity_index() == Map::<u64, Seq<ConstraintId>>::empty(),
    {
        let s = ConstraintSystem {
            variables: HashMap::new(),
            constraints: HashMap::new(),
            variable_constraints: HashMap::new(),
            entity_constraints: HashMap::new(),
        };
        assert(s.var_index() =~= Map::<u64, Seq<ConstraintId>>::empty());
        assert(s.entity_index() =~= Map::<u64, Seq<ConstraintId>>::empty());
        s
    }

    /// Adds a variable, replacing one with the same id.
    pub fn add_variable(&mut self, variable: Variable<F>)
        requires
            old(self).wf(),
        ensures
            final(self).wf(),
            final(self).vars() == old(self).vars().insert(variable.id.0, variable),
            final(self).cons() == old(self).cons(),
            final(self).var_index() == old(self).var_index(),
            final(self).entity_index() == old(self).entity_index(),
    {
        let id = variable.id.0;
        self.variables.insert(id, variable);
    }

    /// The variable with an id.
    pub fn get_variable(&self, id: &VariableId) -> (r: Option<&Variable<F>>)
        ensures
            match r {
                Some(v) => self.vars().contains_key(id.0) && *v == self.vars()[id.0],
                None => !self.vars().contains_key(id.0),
            },
    {
        self.variables.get(&id.0)
    }

    /// The constraint with an id.
    pub fn get_constraint(&self, id: &ConstraintId) -> (r: Option<&Constraint<F>>)
        ensures
            match r {
                Some(c) => self.cons().contains_key(id.0) && *c == self.cons()[id.0],
                None => !self.cons().contains_key(id.0),
            },
    {
        self.constraints.get(&id.0)
    }
    /// Removes a variable and drops the targets naming it from the
    /// constraints recorded for it; `None` when there is no such variable.
    pub fn remove_variable(&mut self, id: &VariableId) -> (r: Option<Variable<F>>)
        requires
            old(self).wf(),
        ensures
            final(self).wf(),
            match r {
                Some(var) => {
                    &&& old(self).vars().contains_key(id.0)
                    &&& var == old(self).vars()[id.0]
                    &&& final(self).vars() == old(self).vars().remove(id.0)
                    &&& final(self).var_index() == old(self).var_index().remove(id.0)
                    &&& final(self).entity_index() == old(self).entity_index()
                    &&& forall|k: u64| #[trigger] final(self).cons().contains_key(k)
                        ==> !names_key(final(self).cons()[k].targets@, id.0, true)
                    &&& stripped_of(
                        final(self).cons(),
                        old(self).cons(),
                        if old(self).var_index().contains_key(id.0) {
                            old(self).var_index()[id.0]
                        } else {
                            Seq::empty()
                        },
                        id.0,
                    )
                },
                None => {
                    &&& !old(self).vars().contains_key(id.0)
                    &&& final(self).vars() == old(self).vars()
                    &&& final(self).cons() == old(self).cons()
                    &&& final(self).var_index() == old(self).var_index()
                    &&& final(self).entity_index() == old(self).entity_index()
                },
            },
    {
        let var = match self.variables.remove(&id.0) {
            Some(var) => var,
            None => {
                return None;
            },
        };
        let v = id.0;
        let ghost vi0 = self.var_index();
        let ids: Vec<ConstraintId> = match self.variable_constraints.remove(&v) {
            Some(ids) => ids,
            None => Vec::new(),
        };
        proof {
            assert(self.var_index() =~= vi0.remove(v));
        }
        let ghost cons0 = self.constraints@;
        let mut j: usize = 0;
        while j < ids.len()
            invariant
                j <= ids@.len(),
                forall|k: u64| #[trigger] cons0.contains_key(k) ==> cons0[k].id.0 == k,
                stripped_of(self.constraints@, cons0, ids@.take(j as int), v),
                self.variables@ == old(self).variables@.remove(v),
                self.var_index() == vi0.remove(v),
                self.entity_index() == old(self).entity_index(),
            decreases ids@.len() - j,
        {
            let cid = ids[j].0;
            let ghost before = self.constraints@;
            proof {
                assert forall|k: u64| #[trigger] id_listed(ids@.take(j + 1), k) <==> (id_listed(
                    ids@.take(j as int),
                    k,
                ) || k == cid) by {
                    if id_listed(ids@.take(j + 1), k) {
                        let x = choose|x: int| 0 <= x < j + 1 && #[trigger] ids@.take(j + 1)[x].0 == k;
                        if x < j {
                            assert(ids@.take(j as int)[x] == ids@.take(j + 1)[x]);
                        }
                    }
                    if id_listed(ids@.take(j as int), k) {
                        let x = choose|x: int| 0 <= x < j && #[trigger] ids@.take(j as int)[x].0 == k;
                        assert(ids@.take(j as int)[x] == ids@.take(j + 1)[x]);
                    }
                    if k == cid {
                        assert(ids@.take(j + 1)[j as int] == ids@[j as int]);
                    }
                }
            }
            match self.constraints.remove(&cid) {
                Some(c) => {
                    let Constraint { id: cid2, constraint_type, targets, value, weight, enabled, name, description } = c;
                    let ghost old_targets = targets@;
                    let stripped = strip_variable(targets, v);
                    let c2 = Constraint {
                        id: cid2,
                        constraint_type,
                        targets: stripped,
                        value,
                        weight,
                        enabled,
                        name,
                        description,
                    };
                    self.constraints.insert(cid, c2);
                    proof {
                        lemma_without_variable_twice(cons0[cid].targets@, v);
                        assert forall|k: u64| #[trigger] cons0.contains_key(k) implies {
                            &&& same_but_targets(self.constraints@[k], cons0[k])
                            &&& self.constraints@[k].targets@ == if id_listed(ids@.take(j + 1), k) {
                                without_variable(cons0[k].targets@, v)
                            } else {
                                cons0[k].targets@
                            }
                        } by {
                            if k != cid {
                                assert(self.constraints@[k] == before[k]);
                            }
                        }
                        assert(self.constraints@.dom() =~= cons0.dom());
                    }
                },
                None => {
                    proof {
                        assert(self.constraints@ == before);
                    }
                },
            }
            j = j + 1;
        }
        proof {
            assert(ids@.take(ids@.len() as int) =~= ids@);
            assert(ids@ == ids_for(vi0, v));
            lemma_strip_keeps_index(cons0, self.constraints@, vi0, old(self).entity_index(), v);
            assert forall|k: u64| #[trigger] self.constraints@.contains_key(k) implies self.constraints@[k].id.0 == k by {
                assert(cons0.contains_key(k));
            }
        }
        Some(var)
    }

    /// The existing constraints among some ids, in order.
    fn listed_constraints<'a>(&'a self, ids: &Vec<ConstraintId>) -> (r: Vec<&'a Constraint<F>>)
        ensures
            r@.len() == listed(ids@, self.cons()).len(),
            forall|i: int| 0 <= i < r@.len() ==> *r@[i] == listed(ids@, self.cons())[i],
    {
        let mut r: Vec<&'a Constraint<F>> = Vec::new();
        let mut j: usize = 0;
        while j < ids.len()
            invariant
                j <= ids@.len(),
                r@.len() == listed(ids@.take(j as int), self.cons()).len(),
                forall|i: int| 0 <= i < r@.len() ==> *r@[i] == listed(ids@.take(j as int), self.cons())[i],
            decreases ids@.len() - j,
        {
            proof {
                assert(ids@.take(j + 1).drop_last() =~= ids@.take(j as int));
                assert(ids@.take(j + 1).last() == ids@[j as int]);
            }
            match self.constraints.get(&ids[j].0) {
                Some(c) => {
                    r.push(c);
                },
                None => {},
            }
            j = j + 1;
        }
        proof {
            assert(ids@.take(ids@.len() as int) =~= ids@);
        }
        r
    }

    /// The constraints recorded for an entity that still exist, in the
    /// order they were recorded.
    pub fn get_entity_constraints(&self, entity_id: &EntityId) -> (r: Vec<&Constraint<F>>)
        ensures
            r@.len() == listed(ids_for(self.entity_index(), entity_id.0), self.cons()).len(),
            forall|i: int|
                0 <= i < r@.len() ==> *r@[i] == listed(ids_for(self.entity_index(), entity_id.0), self.cons())[i],
    {
        match self.entity_constraints.get(&entity_id.0) {
            Some(ids) => self.listed_constraints(ids),
            None => {
                let ghost e: Seq<ConstraintId> = Seq::empty();
                assert(listed(e, self.cons()) =~= Seq::<Constraint<F>>::empty());
                Vec::new()
            },
        }
    }

    /// The constraints recorded for a variable that still exist, in the
    /// order they were recorded.
    pub fn get_variable_constraints(&self, var_id: &VariableId) -> (r: Vec<&Constraint<F>>)
        ensures
            r@.len() == listed(ids_for(self.var_index(), var_id.0), self.cons()).len(),
            forall|i: int|
                0 <= i < r@.len() ==> *r@[i] == listed(ids_for(self.var_index(), var_id.0), self.cons())[i],
    {
        match self.variable_constraints.get(&var_id.0) {
            Some(ids) => self.listed_constraints(ids),
            None => {
                let ghost e: Seq<ConstraintId> = Seq::empty();
                assert(listed(e, self.cons()) =~= Seq::<Constraint<F>>::empty());
                Vec::new()
            },
        }
    }

    /// Every variable, once each, in the order the map is walked.
    pub fn variables(&self) -> (r: Vec<&Variable<F>>)
        ensures
            r@.len() == self.vars().dom().len(),
            forall|i: int| 0 <= i < r@.len() ==> self.vars().values().contains(*r@[i]),
            forall|k: u64| self.vars().contains_key(k) ==> exists|i: int| 0 <= i < r@.len() && *r@[i] == self.vars()[k],
    {
        let mut r: Vec<&Variable<F>> = Vec::new();
        for v in it: self.variables.values()
            invariant
                r@.len() == it.index(),
                forall|i: int| 0 <= i < it.index() ==> r@[i] == it.seq()[i],
        {
            r.push(v);
        }
        proof {
            let all = vstd::std_specs::hash::spec_values_iter(&self.variables).remaining();
            assert(r@ =~= all);
            assert(all.unref().to_set() == self.variables@.values());
            assert forall|i: int| 0 <= i < r@.len() implies self.vars().values().contains(*r@[i]) by {
                assert(all.unref()[i] == *r@[i]);
                assert(all.unref().to_set().contains(all.unref()[i]));
            }
            assert forall|k: u64| self.vars().contains_key(k) implies exists|i: int| 0 <= i < r@.len() && *r@[i] == self.vars()[k] by {
                assert(self.variables@.values().contains(self.variables@[k]));
                assert(all.unref().to_set().contains(self.variables@[k]));
                let i = choose|i: int| 0 <= i < all.unref().len() && all.unref()[i] == self.variables@[k];
                assert(*r@[i] == self.vars()[k]);
            }
        }
        r
    }

    /// Every constraint, once each, in the order the map is walked.
    pub fn constraints(&self) -> (r: Vec<&Constraint<F>>)
        ensures
            r@.len() == self.cons().dom().len(),
            forall|i: int| 0 <= i < r@.len() ==> self.cons().values().contains(*r@[i]),
            forall|k: u64| self.cons().contains_key(k) ==> exists|i: int| 0 <= i < r@.len() && *r@[i] == self.cons()[k],
    {
        let mut r: Vec<&Constraint<F>> = Vec::new();
        for c in it: self.constraints.values()
            invariant
                r@.len() == it.index(),
                forall|i: int| 0 <= i < it.index() ==> r@[i] == it.seq()[i],
        {
            r.push(c);
        }
        proof {
            let all = vstd::std_specs::hash::spec_values_iter(&self.constraints).remaining();
            assert(r@ =~= all);
            assert(all.unref().to_set() == self.constraints@.values());
            assert forall|i: int| 0 <= i < r@.len() implies self.cons().values().contains(*r@[i]) by {
                assert(all.unref()[i] == *r@[i]);
                assert(all.unref().to_set().contains(all.unref()[i]));
            }
            assert forall|k: u64| self.cons().contains_key(k) implies exists|i: int| 0 <= i < r@.len() && *r@[i] == self.cons()[k] by {
                assert(self.constraints@.values().contains(self.constraints@[k]));
                assert(all.unref().to_set().contains(self.constraints@[k]));
                let i = choose|i: int| 0 <= i < all.unref().len() && all.unref()[i] == self.constraints@[k];
                assert(*r@[i] == self.cons()[k]);
            }
        }
        r
    }

    /// Adds a constraint, replacing one with the same id, and records it for
    /// every variable and entity its targets name, in order.
    pub fn add_constraint(&mut self, constraint: Constraint<F>)
        requires
            old(self).wf(),
        ensures
            final(self).wf(),
            final(self).cons() == old(self).cons().insert(constraint.id.0, constraint),
            final(self).vars() == old(self).vars(),
            final(self).var_index() == index_after(
                old(self).var_index(),
                constraint.targets@,
                constraint.id,
                true,
            ),
            final(self).entity_index() == index_after(
                old(self).entity_index(),
                constraint.targets@,
                constraint.id,
                false,
            ),
    {
        let id = constraint.id;
        let ghost ts = constraint.targets@;
        let ghost vi0 = self.var_index();
        let ghost ei0 = self.entity_index();
        let mut i: usize = 0;
        while i < constraint.targets.len()
            invariant
                i <= ts.len(),
                ts == constraint.targets@,
                id == constraint.id,
                self.variables@ == old(self).variables@,
                self.constraints@ == old(self).constraints@,
                self.var_index() == index_after(vi0, ts.take(i as int), id, true),
                self.entity_index() == index_after(ei0, ts.take(i as int), id, false),
            decreases ts.len() - i,
        {
            proof {
                assert(ts.take(i + 1).drop_last() =~= ts.take(i as int));
                assert(ts.take(i + 1).last() == ts[i as int]);
            }
            match &constraint.targets[i] {
                ConstraintTarget::Variable(v) => {
                    push_index(&mut self.variable_constraints, v.0, id);
                },
                ConstraintTarget::Point(e) => {
                    push_index(&mut self.entity_constraints, e.0, id);
                },
                ConstraintTarget::Line(e) => {
                    push_index(&mut self.entity_constraints, e.0, id);
                },
                ConstraintTarget::Circle(e) => {
                    push_index(&mut self.entity_constraints, e.0, id);
                },
                ConstraintTarget::Arc(e) => {
                    push_index(&mut self.entity_constraints, e.0, id);
                },
                ConstraintTarget::Constant(_) => {},
            }
            i = i + 1;
        }
        assert(ts.take(ts.len() as int) =~= ts);
        proof {
            lemma_add_keeps_index(old(self).cons(), vi0, constraint, true);
            lemma_add_keeps_index(old(self).cons(), ei0, constraint, false);
        }
        self.constraints.insert(id.0, constraint);
    }

    /// Removes a constraint and forgets it for the variables and entities
    /// its targets name; `None` when there is no such constraint.
    pub fn remove_constraint(&mut self, id: &ConstraintId) -> (r: Option<Constraint<F>>)
        requires
            old(self).wf(),
        ensures
            final(self).wf(),
            final(self).vars() == old(self).vars(),
            match r {
                Some(c) => {
                    &&& old(self).cons().contains_key(id.0)
                    &&& c == old(self).cons()[id.0]
                    &&& final(self).cons() == old(self).cons().remove(id.0)
                    &&& final(self).var_index() == index_without(
                        old(self).var_index(),
                        c.targets@,
                        id.0,
                        true,
                    )
                    &&& final(self).entity_index() == index_without(
                        old(self).entity_index(),
                        c.targets@,
                        id.0,
                        false,
                    )
                },
                None => {
                    &&& !old(self).cons().contains_key(id.0)
                    &&& final(self).cons() == old(self).cons()
                    &&& final(self).var_index() == old(self).var_index()
                    &&& final(self).entity_index() == old(self).entity_index()
                },
            },
    {
        let c = match self.constraints.remove(&id.0) {
            Some(c) => c,
            None => {
                return None;
            },
        };
        let cid = id.0;
        let ghost ts = c.targets@;
        let ghost vi0 = self.var_index();
        let ghost ei0 = self.entity_index();
        proof {
            assert(index_without(vi0, ts.take(0), cid, true) =~= vi0);
            assert(index_without(ei0, ts.take(0), cid, false) =~= ei0);
        }
        let mut i: usize = 0;
        while i < c.targets.len()
            invariant
                i <= ts.len(),
                ts == c.targets@,
                self.variables@ == old(self).variables@,
                self.constraints@ == old(self).constraints@.remove(cid),
                self.var_index() == index_without(vi0, ts.take(i as int), cid, true),
                self.entity_index() == index_without(ei0, ts.take(i as int), cid, false),
            decreases ts.len() - i,
        {
            let ghost vbefore = self.var_index();
            let ghost ebefore = self.entity_index();
            let key: Option<(bool, u64)> = match &c.targets[i] {
                ConstraintTarget::Variable(v) => Some((true, v.0)),
                ConstraintTarget::Point(e) => Some((false, e.0)),
                ConstraintTarget::Line(e) => Some((false, e.0)),
                ConstraintTarget::Circle(e) => Some((false, e.0)),
                ConstraintTarget::Arc(e) => Some((false, e.0)),
                ConstraintTarget::Constant(_) => None,
            };
            assert(match key {
                Some((true, k)) => key_of(ts[i as int], true) == Some(k) && key_of(ts[i as int], false) is None,
                Some((false, k)) => key_of(ts[i as int], false) == Some(k) && key_of(ts[i as int], true) is None,
                None => key_of(ts[i as int], true) is None && key_of(ts[i as int], false) is None,
            });
            match key {
                Some((true, k)) => {
                    drop_from_index(&mut self.variable_constraints, k, cid);
                },
                Some((false, k)) => {
                    drop_from_index(&mut self.entity_constraints, k, cid);
                },
                None => {},
            }
            proof {
                lemma_index_without_step(vi0, ts, i as int, cid, true, vbefore, self.var_index());
                lemma_index_without_step(ei0, ts, i as int, cid, false, ebefore, self.entity_index());
            }
            i = i + 1;
        }
        assert(ts.take(ts.len() as int) =~= ts);
        proof {
            lemma_remove_keeps_index(old(self).cons(), vi0, cid, ts, true);
            lemma_remove_keeps_index(old(self).cons(), ei0, cid, ts, false);
        }
        Some(c)
    }
}

impl<F> Default for ConstraintSystem<F> {
    /// An empty system.
    fn default() -> (s: Self)
        ensures
            s.wf(),
            s.vars() == Map::<u64, Variable<F>>::empty(),
            s.cons() == Map::<u64, Constraint<F>>::empty(),
            s.var_index() == Map::<u64, Seq<ConstraintId>>::empty(),
            s.entity_index() == Map::<u64, Seq<ConstraintId>>::empty(),
    {
        Self::new()
    }
}

} // verus!

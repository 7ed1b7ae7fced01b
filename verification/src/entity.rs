//! Drawing entities are known here by their number, with the plain
//! enumerations their geometry carries: text alignment and dimension type.

use vstd::prelude::*;

verus! {

/// Identifier of a drawing entity.
#[derive(Debug, Clone, Copy, PartialEq, Eq, Structural, Hash)]
pub struct EntityId(pub u64);

/// How text is aligned to its insertion point.
#[derive(Debug, Clone, Copy, PartialEq, Eq, Structural)]
pub enum TextAlignment {
    Left,
    Center,
    Right,
}

impl Default for TextAlignment {
    /// Left alignment.
    fn default() -> (a: Self)
        ensures
            a == TextAlignment::Left,
    {
        TextAlignment::Left
    }
}

/// What a dimension measures.
#[derive(Debug, Clone, Copy, PartialEq, Eq, Structural)]
pub enum DimensionType {
    /// The distance between the two points, along the line through them.
    Aligned,
    /// The horizontal or vertical distance between the two points.
    Linear,
    Radius,
    Diameter,
}

impl Default for DimensionType {
    /// An aligned dimension.
    fn default() -> (d: Self)
        ensures
            d == DimensionType::Aligned,
    {
        DimensionType::Aligned
    }
}


/// The list without an entity.
pub open spec fn without_entity(s: Seq<EntityId>, e: EntityId) -> Seq<EntityId>
    decreases s.len(),
{
    if s.len() == 0 {
        s
    } else {
        let rest = without_entity(s.drop_last(), e);
        if s.last() == e {
            rest
        } else {
            rest.push(s.last())
        }
    }
}

/// What is left of a list without an entity: the other entities.
pub proof fn lemma_without_entity_contains(s: Seq<EntityId>, e: EntityId, x: EntityId)
    ensures
        without_entity(s, e).contains(x) <==> (s.contains(x) && x != e),
    decreases s.len(),
{
    if s.len() > 0 {
        lemma_without_entity_contains(s.drop_last(), e, x);
        let rest = without_entity(s.drop_last(), e);
        if s.contains(x) && x != e {
            let i = choose|i: int| 0 <= i < s.len() && s[i] == x;
            if i < s.len() - 1 {
                assert(s.drop_last()[i] == x);
            } else {
                assert(rest.push(s.last())[rest.len() as int] == x);
            }
        }
        if rest.contains(x) {
            let i = choose|i: int| 0 <= i < rest.len() && rest[i] == x;
            if s.last() != e {
                assert(rest.push(s.last())[i] == x);
            }
        }
        if s.drop_last().contains(x) {
            let i = choose|i: int| 0 <= i < s.drop_last().len() && s.drop_last()[i] == x;
            assert(s[i] == x);
        }
        if without_entity(s, e).contains(x) && s.last() != e && !rest.contains(x) {
            let i = choose|i: int| 0 <= i < rest.len() + 1 && rest.push(s.last())[i] == x;
            assert(i == rest.len());
            assert(s[s.len() - 1] == x);
        }
    }
}

/// Dropping an entity keeps a list free of repeats.
pub proof fn lemma_without_entity_no_duplicates(s: Seq<EntityId>, e: EntityId)
    requires
        s.no_duplicates(),
    ensures
        without_entity(s, e).no_duplicates(),
    decreases s.len(),
{
    if s.len() > 0 {
        let rest = without_entity(s.drop_last(), e);
        assert(s.drop_last().no_duplicates()) by {
            assert forall|i: int, j: int| 0 <= i < s.drop_last().len() && 0 <= j < s.drop_last().len() && i != j
                implies s.drop_last()[i] != s.drop_last()[j] by {
                assert(s[i] == s.drop_last()[i] && s[j] == s.drop_last()[j]);
            }
        }
        lemma_without_entity_no_duplicates(s.drop_last(), e);
        if s.last() != e {
            lemma_without_entity_contains(s.drop_last(), e, s.last());
            if s.drop_last().contains(s.last()) {
                let i = choose|i: int| 0 <= i < s.drop_last().len() && s.drop_last()[i] == s.last();
                assert(s[i] == s[s.len() - 1]);
            }
            let r2 = rest.push(s.last());
            assert forall|i: int, j: int| 0 <= i < r2.len() && 0 <= j < r2.len() && i != j implies r2[i] != r2[j] by {
                if i == rest.len() {
                    assert(rest.contains(r2[j]) ==> true);
                    if r2[i] == r2[j] {
                        assert(rest[j] == s.last());
                    }
                } else if j == rest.len() {
                    if r2[i] == r2[j] {
                        assert(rest[i] == s.last());
                    }
                } else {
                    assert(r2[i] == rest[i] && r2[j] == rest[j]);
                }
            }
        }
    }
}

/// A list without the entity is unchanged by dropping it.
pub proof fn lemma_without_absent(s: Seq<EntityId>, e: EntityId)
    requires
        !s.contains(e),
    ensures
        without_entity(s, e) == s,
    decreases s.len(),
{
    if s.len() > 0 {
        if s.drop_last().contains(e) {
            let i = choose|i: int| 0 <= i < s.drop_last().len() && s.drop_last()[i] == e;
            assert(s[i] == e);
        }
        lemma_without_absent(s.drop_last(), e);
        assert(s[s.len() - 1] == s.last());
        assert(s.drop_last().push(s.last()) =~= s);
    }
}

/// The entities of a list other than one, in order.
pub(crate) fn retain_others(v: Vec<EntityId>, e: EntityId) -> (r: Vec<EntityId>)
    ensures
        r@ == without_entity(v@, e),
{
    let mut r: Vec<EntityId> = Vec::new();
    let mut i: usize = 0;
    while i < v.len()
        invariant
            i <= v@.len(),
            r@ == without_entity(v@.take(i as int), e),
        decreases v@.len() - i,
    {
        assert(v@.take(i + 1).drop_last() =~= v@.take(i as int));
        if v[i] != e {
            r.push(v[i]);
        }
        i = i + 1;
    }
    assert(v@.take(v@.len() as int) =~= v@);
    r
}

} // verus!

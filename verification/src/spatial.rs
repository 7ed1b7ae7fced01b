//! Grid index of entities: each entity is listed in every grid cell its
//! bounding box touches.
//!
//! The index works on grid cells. Turning world coordinates into cells
//! (dividing by the cell size and rounding down) and the exact box tests
//! that refine a query belong to the caller, which holds the boxes.

use vstd::prelude::*;
use std::collections::HashMap;
use std::collections::HashSet;
use vstd::std_specs::iter::IteratorSpec;
use crate::entity::{
    lemma_without_absent, lemma_without_entity_contains, lemma_without_entity_no_duplicates, retain_others,
    without_entity, EntityId,
};

verus! {

broadcast use vstd::std_specs::hash::group_hash_axioms;

/// The rectangle of grid cells `min_x..=max_x` by `min_y..=max_y`; empty
/// when a minimum exceeds its maximum.
#[derive(Debug, Clone, Copy, PartialEq, Eq, Structural)]
pub struct CellRange {
    pub min_x: i64,
    pub min_y: i64,
    pub max_x: i64,
    pub max_y: i64,
}

/// Whether a range holds the cell `(x, y)`.
pub open spec fn covers(r: CellRange, x: int, y: int) -> bool {
    r.min_x <= x <= r.max_x && r.min_y <= y <= r.max_y
}

/// Whether two ranges share a cell.
pub open spec fn overlaps(a: CellRange, b: CellRange) -> bool {
    &&& a.min_x <= a.max_x && a.min_y <= a.max_y
    &&& b.min_x <= b.max_x && b.min_y <= b.max_y
    &&& a.min_x <= b.max_x && b.min_x <= a.max_x
    &&& a.min_y <= b.max_y && b.min_y <= a.max_y
}

pub open spec fn in_i64(v: int) -> bool {
    i64::MIN <= v <= i64::MAX
}

/// The number under which a cell's list is kept: distinct cells get
/// distinct numbers.
pub open spec fn cell_key(x: int, y: int) -> int {
    x * 0x1_0000_0000_0000_0000 + (y + 0x8000_0000_0000_0000)
}

proof fn lemma_cell_key_range(x: int, y: int)
    requires
        in_i64(x),
        in_i64(y),
    ensures
        i128::MIN <= cell_key(x, y) <= i128::MAX,
{
}

proof fn lemma_cell_key_injective(x1: int, y1: int, x2: int, y2: int)
    requires
        in_i64(x1),
        in_i64(y1),
        in_i64(x2),
        in_i64(y2),
        cell_key(x1, y1) == cell_key(x2, y2),
    ensures
        x1 == x2,
        y1 == y2,
{
    if x1 < x2 {
        assert(x1 * 0x1_0000_0000_0000_0000 + 0x1_0000_0000_0000_0000 <= x2 * 0x1_0000_0000_0000_0000) by (nonlinear_arith)
            requires
                x1 < x2,
        ;
    } else if x2 < x1 {
        assert(x2 * 0x1_0000_0000_0000_0000 + 0x1_0000_0000_0000_0000 <= x1 * 0x1_0000_0000_0000_0000) by (nonlinear_arith)
            requires
                x2 < x1,
        ;
    }
}

fn key_of_cell(x: i64, y: i64) -> (k: i128)
    ensures
        k == cell_key(x as int, y as int),
{
    proof {
        lemma_cell_key_range(x as int, y as int);
    }
    (x as i128) * 0x1_0000_0000_0000_0000i128 + ((y as i128) + 0x8000_0000_0000_0000i128)
}

/// The list with each entity at its first place only.
pub open spec fn dedup(s: Seq<EntityId>) -> Seq<EntityId>
    decreases s.len(),
{
    if s.len() == 0 {
        s
    } else {
        let d = dedup(s.drop_last());
        if d.contains(s.last()) {
            d
        } else {
            d.push(s.last())
        }
    }
}

/// Whether the cell `(a, b)` comes before `(x, y)` in a walk of a range,
/// column by column and, in a column, cell by cell.
pub open spec fn walked(r: CellRange, x: int, y: int, a: int, b: int) -> bool {
    covers(r, a, b) && (a < x || (a == x && b < y))
}

/// Appending an entity a list lacks keeps it free of repeats.
proof fn lemma_push_new_no_duplicates(s: Seq<EntityId>, e: EntityId)
    requires
        s.no_duplicates(),
        !s.contains(e),
    ensures
        s.push(e).no_duplicates(),
{
    let t = s.push(e);
    assert forall|i: int, j: int| 0 <= i < t.len() && 0 <= j < t.len() && i != j implies t[i] != t[j] by {
        if i == s.len() {
            assert(t[j] == s[j]);
        } else if j == s.len() {
            assert(t[i] == s[i]);
        } else {
            assert(t[i] == s[i] && t[j] == s[j]);
        }
    }
}

/// An entity is in a concatenation when it is in one of the parts.
proof fn lemma_concat_contains(s: Seq<EntityId>, t: Seq<EntityId>, e: EntityId)
    ensures
        (s + t).contains(e) <==> (s.contains(e) || t.contains(e)),
{
    if (s + t).contains(e) {
        let i = choose|i: int| 0 <= i < (s + t).len() && (s + t)[i] == e;
        if i < s.len() {
            assert(s[i] == e);
        } else {
            assert(t[i - s.len()] == e);
        }
    }
    if s.contains(e) {
        let i = choose|i: int| 0 <= i < s.len() && s[i] == e;
        assert((s + t)[i] == e);
    }
    if t.contains(e) {
        let i = choose|i: int| 0 <= i < t.len() && t[i] == e;
        assert((s + t)[s.len() + i] == e);
    }
}

/// Keeping first places keeps the same entities, once each.
proof fn lemma_dedup(s: Seq<EntityId>, e: EntityId)
    ensures
        dedup(s).contains(e) <==> s.contains(e),
        dedup(s).no_duplicates(),
    decreases s.len(),
{
    if s.len() > 0 {
        let d = dedup(s.drop_last());
        lemma_dedup(s.drop_last(), e);
        lemma_dedup(s.drop_last(), s.last());
        assert(s.drop_last().push(s.last()) =~= s);
        lemma_concat_contains(s.drop_last(), seq![s.last()], e);
        assert(s.drop_last() + seq![s.last()] =~= s);
        if !d.contains(s.last()) {
            lemma_push_new_no_duplicates(d, s.last());
            lemma_concat_contains(d, seq![s.last()], e);
            assert(d + seq![s.last()] =~= d.push(s.last()));
        }
    }
}

/// The entities, in the order of a list of entity numbers, whose range in
/// `m` covers the cell `(a, b)`.
pub open spec fn covering(keys: Seq<u64>, m: Map<u64, CellRange>, a: int, b: int) -> Seq<EntityId>
    decreases keys.len(),
{
    if keys.len() == 0 {
        Seq::empty()
    } else {
        let rest = covering(keys.drop_last(), m, a, b);
        let k = keys.last();
        if m.contains_key(k) && covers(m[k], a, b) {
            rest.push(EntityId(k))
        } else {
            rest
        }
    }
}

/// A grid index of entities.
pub struct SpatialIndex {
    grid: HashMap<i128, Vec<EntityId>>,
    ranges: HashMap<u64, CellRange>,
}

impl SpatialIndex {
    /// The cells each indexed entity covers, by entity.
    pub closed spec fn ranges(&self) -> Map<u64, CellRange> {
        self.ranges@
    }

    /// The list of the cell `(x, y)`, in the order the entities came in.
    pub closed spec fn cell(&self, x: int, y: int) -> Seq<EntityId> {
        if in_i64(x) && in_i64(y) && self.grid@.contains_key(cell_key(x, y) as i128) {
            self.grid@[cell_key(x, y) as i128]@
        } else {
            Seq::empty()
        }
    }

    /// Each cell lists, once each, exactly the entities whose range
    /// covers it.
    pub closed spec fn wf(&self) -> bool {
        &&& forall|x: int, y: int, i: int|
            #![trigger self.cell(x, y)[i]]
            0 <= i < self.cell(x, y).len() ==> self.ranges@.contains_key(self.cell(x, y)[i].0) && covers(
                self.ranges@[self.cell(x, y)[i].0],
                x,
                y,
            )
        &&& forall|e: u64, x: int, y: int|
            #![trigger covers(self.ranges@[e], x, y)]
            self.ranges@.contains_key(e) && covers(self.ranges@[e], x, y) ==> self.cell(x, y).contains(EntityId(e))
        &&& forall|x: int, y: int| #![trigger self.cell(x, y)] self.cell(x, y).no_duplicates()
    }

    /// An empty index.
    pub fn new() -> (s: Self)
        ensures
            s.wf(),
            s.ranges() == Map::<u64, CellRange>::empty(),
            forall|x: int, y: int| s.cell(x, y) == Seq::<EntityId>::empty(),
    {
        SpatialIndex { grid: HashMap::new(), ranges: HashMap::new() }
    }

    /// The number of entities indexed.
    pub fn len(&self) -> (n: usize)
        ensures
            n == self.ranges().len(),
    {
        self.ranges.len()
    }

    pub fn is_empty(&self) -> (b: bool)
        ensures
            b == (self.ranges().len() == 0),
    {
        self.ranges.len() == 0
    }

    /// The cells an entity covers, if it is indexed.
    pub fn get_cells(&self, id: &EntityId) -> (r: Option<CellRange>)
        ensures
            r == (if self.ranges().contains_key(id.0) {
                Some(self.ranges()[id.0])
            } else {
                None
            }),
    {
        match self.ranges.get(&id.0) {
            Some(r) => Some(*r),
            None => None,
        }
    }

    /// The entities listed in one cell, in their order there.
    pub fn query_cell(&self, x: i64, y: i64) -> (r: Vec<EntityId>)
        requires
            self.wf(),
        ensures
            r@ == self.cell(x as int, y as int),
            forall|e: EntityId|
                r@.contains(e) <==> self.ranges().contains_key(e.0) && covers(self.ranges()[e.0], x as int, y as int),
    {
        let mut r: Vec<EntityId> = Vec::new();
        match self.grid.get(&key_of_cell(x, y)) {
            Some(list) => {
                let mut i: usize = 0;
                while i < list.len()
                    invariant
                        i <= list@.len(),
                        r@ == list@.take(i as int),
                    decreases list@.len() - i,
                {
                    r.push(list[i]);
                    i = i + 1;
                }
                assert(list@.take(list@.len() as int) =~= list@);
            },
            None => {},
        }
        proof {
            assert forall|e: EntityId|
                self.ranges().contains_key(e.0) && covers(self.ranges()[e.0], x as int, y as int) implies r@.contains(e) by {
                assert(covers(self.ranges@[e.0], x as int, y as int));
                assert(EntityId(e.0) == e);
            }
            assert forall|e: EntityId| r@.contains(e) implies self.ranges().contains_key(e.0) && covers(
                self.ranges()[e.0],
                x as int,
                y as int,
            ) by {
                let i = choose|i: int| 0 <= i < r@.len() && r@[i] == e;
                assert(self.cell(x as int, y as int)[i] == e);
            }
        }
        r
    }

    /// Changes the list of one cell and no other.
    fn replace_cell(&mut self, x: i64, y: i64, list: Vec<EntityId>)
        ensures
            final(self).ranges@ == old(self).ranges@,
            forall|a: int, b: int|
                #![trigger final(self).cell(a, b)]
                final(self).cell(a, b) == if a == x && b == y {
                    list@
                } else {
                    old(self).cell(a, b)
                },
    {
        let k = key_of_cell(x, y);
        self.grid.insert(k, list);
        proof {
            assert forall|a: int, b: int| !(a == x && b == y) implies #[trigger] self.cell(a, b) == old(self).cell(a, b) by {
                if in_i64(a) && in_i64(b) {
                    lemma_cell_key_range(a, b);
                    if cell_key(a, b) == cell_key(x as int, y as int) {
                        lemma_cell_key_injective(a, b, x as int, y as int);
                    }
                }
            }
            lemma_cell_key_range(x as int, y as int);
        }
    }

    /// The list of one cell.
    fn take_cell(&mut self, x: i64, y: i64) -> (list: Vec<EntityId>)
        ensures
            list@ == old(self).cell(x as int, y as int),
            final(self).ranges@ == old(self).ranges@,
            forall|a: int, b: int|
                #![trigger final(self).cell(a, b)]
                !(a == x && b == y) ==> final(self).cell(a, b) == old(self).cell(a, b),
    {
        let k = key_of_cell(x, y);
        proof {
            lemma_cell_key_range(x as int, y as int);
        }
        let list = match self.grid.remove(&k) {
            Some(v) => v,
            None => Vec::new(),
        };
        proof {
            assert forall|a: int, b: int| !(a == x && b == y) implies #[trigger] self.cell(a, b) == old(self).cell(a, b) by {
                if in_i64(a) && in_i64(b) {
                    lemma_cell_key_range(a, b);
                    if cell_key(a, b) == cell_key(x as int, y as int) {
                        lemma_cell_key_injective(a, b, x as int, y as int);
                    }
                }
            }
        }
        list
    }

    /// Drops an entity from the lists of a range's cells.
    fn strip_range(&mut self, r: CellRange, e: EntityId)
        ensures
            final(self).ranges@ == old(self).ranges@,
            forall|a: int, b: int|
                #![trigger final(self).cell(a, b)]
                final(self).cell(a, b) == if covers(r, a, b) {
                    without_entity(old(self).cell(a, b), e)
                } else {
                    old(self).cell(a, b)
                },
    {
        if r.min_x <= r.max_x && r.min_y <= r.max_y {
            let mut x: i64 = r.min_x;
            loop
                invariant_except_break
                    forall|a: int, b: int|
                        #![trigger self.cell(a, b)]
                        self.cell(a, b) == if walked(r, x as int, r.min_y as int, a, b) {
                            without_entity(old(self).cell(a, b), e)
                        } else {
                            old(self).cell(a, b)
                        },
                invariant
                    r.min_x <= x <= r.max_x,
                    r.min_y <= r.max_y,
                    self.ranges@ == old(self).ranges@,
                ensures
                    self.ranges@ == old(self).ranges@,
                    forall|a: int, b: int|
                        #![trigger self.cell(a, b)]
                        self.cell(a, b) == if covers(r, a, b) {
                            without_entity(old(self).cell(a, b), e)
                        } else {
                            old(self).cell(a, b)
                        },
                decreases r.max_x - x,
            {
                let mut y: i64 = r.min_y;
                loop
                    invariant_except_break
                        forall|a: int, b: int|
                            #![trigger self.cell(a, b)]
                            self.cell(a, b) == if walked(r, x as int, y as int, a, b) {
                                without_entity(old(self).cell(a, b), e)
                            } else {
                                old(self).cell(a, b)
                            },
                    invariant
                        r.min_x <= x <= r.max_x,
                        r.min_y <= y <= r.max_y,
                        self.ranges@ == old(self).ranges@,
                    ensures
                        self.ranges@ == old(self).ranges@,
                        forall|a: int, b: int|
                            #![trigger self.cell(a, b)]
                            self.cell(a, b) == if walked(r, x + 1, r.min_y as int, a, b) {
                                without_entity(old(self).cell(a, b), e)
                            } else {
                                old(self).cell(a, b)
                            },
                    decreases r.max_y - y,
                {
                    let list = self.take_cell(x, y);
                    let kept = retain_others(list, e);
                    self.replace_cell(x, y, kept);
                    if y == r.max_y {
                        break;
                    }
                    y = y + 1;
                }
                if x == r.max_x {
                    break;
                }
                x = x + 1;
            }
        }
    }

    /// Appends an entity to the lists of a range's cells.
    fn push_range(&mut self, r: CellRange, e: EntityId)
        ensures
            final(self).ranges@ == old(self).ranges@,
            forall|a: int, b: int|
                #![trigger final(self).cell(a, b)]
                final(self).cell(a, b) == if covers(r, a, b) {
                    old(self).cell(a, b).push(e)
                } else {
                    old(self).cell(a, b)
                },
    {
        if r.min_x <= r.max_x && r.min_y <= r.max_y {
            let mut x: i64 = r.min_x;
            loop
                invariant_except_break
                    forall|a: int, b: int|
                        #![trigger self.cell(a, b)]
                        self.cell(a, b) == if walked(r, x as int, r.min_y as int, a, b) {
                            old(self).cell(a, b).push(e)
                        } else {
                            old(self).cell(a, b)
                        },
                invariant
                    r.min_x <= x <= r.max_x,
                    r.min_y <= r.max_y,
                    self.ranges@ == old(self).ranges@,
                ensures
                    self.ranges@ == old(self).ranges@,
                    forall|a: int, b: int|
                        #![trigger self.cell(a, b)]
                        self.cell(a, b) == if covers(r, a, b) {
                            old(self).cell(a, b).push(e)
                        } else {
                            old(self).cell(a, b)
                        },
                decreases r.max_x - x,
            {
                let mut y: i64 = r.min_y;
                loop
                    invariant_except_break
                        forall|a: int, b: int|
                            #![trigger self.cell(a, b)]
                            self.cell(a, b) == if walked(r, x as int, y as int, a, b) {
                                old(self).cell(a, b).push(e)
                            } else {
                                old(self).cell(a, b)
                            },
                    invariant
                        r.min_x <= x <= r.max_x,
                        r.min_y <= y <= r.max_y,
                        self.ranges@ == old(self).ranges@,
                    ensures
                        self.ranges@ == old(self).ranges@,
                        forall|a: int, b: int|
                            #![trigger self.cell(a, b)]
                            self.cell(a, b) == if walked(r, x + 1, r.min_y as int, a, b) {
                                old(self).cell(a, b).push(e)
                            } else {
                                old(self).cell(a, b)
                            },
                    decreases r.max_y - y,
                {
                    let mut list = self.take_cell(x, y);
                    list.push(e);
                    self.replace_cell(x, y, list);
                    if y == r.max_y {
                        break;
                    }
                    y = y + 1;
                }
                if x == r.max_x {
                    break;
                }
                x = x + 1;
            }
        }
    }

    /// Takes an entity out of the index; whether it was there.
    pub fn remove(&mut self, id: &EntityId) -> (found: bool)
        requires
            old(self).wf(),
        ensures
            final(self).wf(),
            found == old(self).ranges().contains_key(id.0),
            final(self).ranges() == old(self).ranges().remove(id.0),
            forall|a: int, b: int|
                #![trigger final(self).cell(a, b)]
                final(self).cell(a, b) == without_entity(old(self).cell(a, b), *id),
    {
        let e = *id;
        let found = match self.ranges.remove(&id.0) {
            Some(r) => {
                self.strip_range(r, e);
                true
            },
            None => false,
        };
        proof {
            assert forall|a: int, b: int| #[trigger] self.cell(a, b) == without_entity(old(self).cell(a, b), e) by {
                let c = old(self).cell(a, b);
                if !(found && covers(old(self).ranges@[e.0], a, b)) {
                    if c.contains(e) {
                        let i = choose|i: int| 0 <= i < c.len() && c[i] == e;
                        assert(old(self).ranges@.contains_key(c[i].0));
                    }
                    lemma_without_absent(c, e);
                }
            }
            assert forall|x: int, y: int, i: int|
                0 <= i < self.cell(x, y).len() implies #[trigger] self.ranges@.contains_key(self.cell(x, y)[i].0)
                && covers(self.ranges@[self.cell(x, y)[i].0], x, y) by {
                let c = old(self).cell(x, y);
                let v = self.cell(x, y)[i];
                assert(self.cell(x, y).contains(v));
                lemma_without_entity_contains(c, e, v);
                let j = choose|j: int| 0 <= j < c.len() && c[j] == v;
                assert(old(self).ranges@.contains_key(c[j].0));
            }
            assert forall|k: u64, x: int, y: int|
                self.ranges@.contains_key(k) && #[trigger] covers(self.ranges@[k], x, y) implies self.cell(x, y).contains(
                EntityId(k),
            ) by {
                assert(covers(old(self).ranges@[k], x, y));
                lemma_without_entity_contains(old(self).cell(x, y), e, EntityId(k));
            }
            assert forall|x: int, y: int| #[trigger] self.cell(x, y).no_duplicates() by {
                lemma_without_entity_no_duplicates(old(self).cell(x, y), e);
            }
        }
        found
    }

    /// Puts an entity in the index over a range of cells, taking it out
    /// of the cells it covered before.
    pub fn insert(&mut self, id: EntityId, r: CellRange)
        requires
            old(self).wf(),
        ensures
            final(self).wf(),
            final(self).ranges() == old(self).ranges().insert(id.0, r),
            forall|a: int, b: int|
                #![trigger final(self).cell(a, b)]
                final(self).cell(a, b) == if covers(r, a, b) {
                    without_entity(old(self).cell(a, b), id).push(id)
                } else {
                    without_entity(old(self).cell(a, b), id)
                },
    {
        self.remove(&id);
        let ghost mid = *self;
        self.push_range(r, id);
        let ghost pushed = *self;
        self.ranges.insert(id.0, r);
        proof {
            assert forall|x: int, y: int| #[trigger] self.cell(x, y) == if covers(r, x, y) {
                mid.cell(x, y).push(id)
            } else {
                mid.cell(x, y)
            } by {
                assert(self.cell(x, y) == pushed.cell(x, y));
            }
            assert forall|x: int, y: int, i: int|
                0 <= i < self.cell(x, y).len() implies #[trigger] self.ranges@.contains_key(self.cell(x, y)[i].0)
                && covers(self.ranges@[self.cell(x, y)[i].0], x, y) by {
                let c = mid.cell(x, y);
                let v = self.cell(x, y)[i];
                if !(covers(r, x, y) && i == c.len()) {
                    assert(c[i] == v);
                    assert(mid.ranges@.contains_key(c[i].0));
                    lemma_without_entity_contains(old(self).cell(x, y), id, v);
                    assert(c.contains(v));
                }
            }
            assert forall|k: u64, x: int, y: int|
                self.ranges@.contains_key(k) && #[trigger] covers(self.ranges@[k], x, y) implies self.cell(x, y).contains(
                EntityId(k),
            ) by {
                let c = mid.cell(x, y);
                if k == id.0 {
                    assert(self.cell(x, y)[c.len() as int] == id);
                } else {
                    assert(covers(mid.ranges@[k], x, y));
                    let j = choose|j: int| 0 <= j < c.len() && c[j] == EntityId(k);
                    if covers(r, x, y) {
                        assert(self.cell(x, y)[j] == EntityId(k));
                    }
                }
            }
            assert forall|x: int, y: int| #[trigger] self.cell(x, y).no_duplicates() by {
                assert(mid.cell(x, y).no_duplicates());
                if covers(r, x, y) {
                    lemma_without_entity_contains(old(self).cell(x, y), id, id);
                    lemma_push_new_no_duplicates(mid.cell(x, y), id);
                }
            }
        }
    }

    /// Moves an entity to a new range of cells.
    pub fn update(&mut self, id: EntityId, r: CellRange)
        requires
            old(self).wf(),
        ensures
            final(self).wf(),
            final(self).ranges() == old(self).ranges().insert(id.0, r),
            forall|a: int, b: int|
                #![trigger final(self).cell(a, b)]
                final(self).cell(a, b) == if covers(r, a, b) {
                    without_entity(old(self).cell(a, b), id).push(id)
                } else {
                    without_entity(old(self).cell(a, b), id)
                },
    {
        self.insert(id, r);
    }

    /// Empties the index.
    pub fn clear(&mut self)
        ensures
            final(self).wf(),
            final(self).ranges() == Map::<u64, CellRange>::empty(),
            forall|a: int, b: int| #[trigger] final(self).cell(a, b) == Seq::<EntityId>::empty(),
    {
        self.grid.clear();
        self.ranges.clear();
    }

    /// The lists of the cells `(x, y0)` to `(x, y1)`, one after another.
    pub closed spec fn column(&self, x: int, y0: int, y1: int) -> Seq<EntityId>
        decreases y1 - y0 + 1,
    {
        if y1 < y0 {
            Seq::empty()
        } else {
            self.column(x, y0, y1 - 1) + self.cell(x, y1)
        }
    }

    /// The lists of the cells of columns `x0` to `x1`, rows `y0` to `y1`,
    /// column after column.
    pub closed spec fn columns(&self, x0: int, x1: int, y0: int, y1: int) -> Seq<EntityId>
        decreases x1 - x0 + 1,
    {
        if x1 < x0 {
            Seq::empty()
        } else {
            self.columns(x0, x1 - 1, y0, y1) + self.column(x1, y0, y1)
        }
    }

    /// The lists of a range's cells, one after another, column by column.
    pub open spec fn gathered(&self, r: CellRange) -> Seq<EntityId> {
        self.columns(r.min_x as int, r.max_x as int, r.min_y as int, r.max_y as int)
    }

    proof fn lemma_column_contains(&self, x: int, y0: int, y1: int, e: EntityId)
        ensures
            self.column(x, y0, y1).contains(e) <==> exists|b: int| y0 <= b <= y1 && #[trigger] self.cell(x, b).contains(e),
        decreases y1 - y0 + 1,
    {
        if y1 >= y0 {
            self.lemma_column_contains(x, y0, y1 - 1, e);
            lemma_concat_contains(self.column(x, y0, y1 - 1), self.cell(x, y1), e);
            if exists|b: int| y0 <= b <= y1 && #[trigger] self.cell(x, b).contains(e) {
                let b = choose|b: int| y0 <= b <= y1 && #[trigger] self.cell(x, b).contains(e);
                if b < y1 {
                    assert(y0 <= b <= y1 - 1 && self.cell(x, b).contains(e));
                }
            }
        }
    }

    proof fn lemma_columns_contains(&self, x0: int, x1: int, y0: int, y1: int, e: EntityId)
        ensures
            self.columns(x0, x1, y0, y1).contains(e) <==> exists|a: int, b: int|
                x0 <= a <= x1 && y0 <= b <= y1 && #[trigger] self.cell(a, b).contains(e),
        decreases x1 - x0 + 1,
    {
        if x1 >= x0 {
            self.lemma_columns_contains(x0, x1 - 1, y0, y1, e);
            self.lemma_column_contains(x1, y0, y1, e);
            lemma_concat_contains(self.columns(x0, x1 - 1, y0, y1), self.column(x1, y0, y1), e);
            if exists|a: int, b: int| x0 <= a <= x1 && y0 <= b <= y1 && #[trigger] self.cell(a, b).contains(e) {
                let (a, b) = choose|a: int, b: int| x0 <= a <= x1 && y0 <= b <= y1 && #[trigger] self.cell(a, b).contains(e);
                if a < x1 {
                    assert(x0 <= a <= x1 - 1 && y0 <= b <= y1 && self.cell(a, b).contains(e));
                } else {
                    assert(y0 <= b <= y1 && self.cell(x1, b).contains(e));
                }
            }
            if exists|b: int| y0 <= b <= y1 && #[trigger] self.cell(x1, b).contains(e) {
                let b = choose|b: int| y0 <= b <= y1 && #[trigger] self.cell(x1, b).contains(e);
                assert(x0 <= x1 <= x1 && y0 <= b <= y1 && self.cell(x1, b).contains(e));
            }
        }
    }

    proof fn lemma_columns_no_rows(&self, x0: int, x1: int, y0: int, y1: int)
        requires
            y1 < y0,
        ensures
            self.columns(x0, x1, y0, y1) == Seq::<EntityId>::empty(),
        decreases x1 - x0 + 1,
    {
        if x1 >= x0 {
            self.lemma_columns_no_rows(x0, x1 - 1, y0, y1);
            assert(self.columns(x0, x1 - 1, y0, y1) + self.column(x1, y0, y1) =~= Seq::<EntityId>::empty());
        }
    }

    /// The entities listed in the cells of a range, each at the first
    /// place it appears when the cells are walked column by column.
    pub fn query_cells(&self, r: CellRange) -> (res: Vec<EntityId>)
        requires
            self.wf(),
        ensures
            res@ == dedup(self.gathered(r)),
            res@.no_duplicates(),
            forall|e: EntityId|
                res@.contains(e) <==> self.ranges().contains_key(e.0) && overlaps(self.ranges()[e.0], r),
    {
        let mut res: Vec<EntityId> = Vec::new();
        let mut seen: HashSet<u64> = HashSet::new();
        let ghost y0 = r.min_y as int;
        let ghost y1 = r.max_y as int;
        if r.min_x <= r.max_x && r.min_y <= r.max_y {
            let mut x: i64 = r.min_x;
            loop
                invariant_except_break
                    res@ == dedup(self.columns(r.min_x as int, x - 1, y0, y1)),
                invariant
                    r.min_x <= x <= r.max_x,
                    r.min_y <= r.max_y,
                    y0 == r.min_y,
                    y1 == r.max_y,
                    forall|k: u64| seen@.contains(k) <==> res@.contains(EntityId(k)),
                ensures
                    res@ == dedup(self.columns(r.min_x as int, r.max_x as int, y0, y1)),
                decreases r.max_x - x,
            {
                let mut y: i64 = r.min_y;
                loop
                    invariant_except_break
                        res@ == dedup(self.columns(r.min_x as int, x - 1, y0, y1) + self.column(x as int, y0, y - 1)),
                    invariant
                        r.min_x <= x <= r.max_x,
                        r.min_y <= y <= r.max_y,
                        y0 == r.min_y,
                        y1 == r.max_y,
                        forall|k: u64| seen@.contains(k) <==> res@.contains(EntityId(k)),
                    ensures
                        res@ == dedup(self.columns(r.min_x as int, x as int, y0, y1)),
                    decreases r.max_y - y,
                {
                    let ghost before = self.columns(r.min_x as int, x - 1, y0, y1) + self.column(x as int, y0, y - 1);
                    proof {
                        lemma_cell_key_range(x as int, y as int);
                    }
                    match self.grid.get(&key_of_cell(x, y)) {
                        Some(list) => {
                            assert(list@ == self.cell(x as int, y as int));
                            let mut i: usize = 0;
                            while i < list.len()
                                invariant
                                    i <= list@.len(),
                                    res@ == dedup(before + list@.take(i as int)),
                                    forall|k: u64| seen@.contains(k) <==> res@.contains(EntityId(k)),
                                decreases list@.len() - i,
                            {
                                let v = list[i];
                                proof {
                                    assert((before + list@.take(i as int)).push(v) =~= before + list@.take(i + 1));
                                    assert((before + list@.take(i + 1)).drop_last() =~= before + list@.take(i as int));
                                    assert(EntityId(v.0) == v);
                                }
                                let ghost prev = res@;
                                let ghost seen0 = seen@;
                                let fresh = seen.insert(v.0);
                                if fresh {
                                    res.push(v);
                                }
                                proof {
                                    assert forall|k: u64| seen@.contains(k) <==> res@.contains(EntityId(k)) by {
                                        if fresh {
                                            lemma_concat_contains(prev, seq![v], EntityId(k));
                                            assert(prev + seq![v] =~= res@);
                                            assert(seq![v].contains(EntityId(k)) <==> k == v.0) by {
                                                if k == v.0 {
                                                    assert(seq![v][0] == EntityId(k));
                                                }
                                            }
                                        } else {
                                            assert(seen0.contains(v.0));
                                        }
                                    }
                                }
                                i = i + 1;
                            }
                            assert(list@.take(list@.len() as int) =~= list@);
                        },
                        None => {
                            assert(self.cell(x as int, y as int) =~= Seq::<EntityId>::empty());
                        },
                    }
                    proof {
                        assert(before + self.cell(x as int, y as int) =~= self.columns(r.min_x as int, x - 1, y0, y1)
                            + self.column(x as int, y0, y as int));
                    }
                    if y == r.max_y {
                        break;
                    }
                    y = y + 1;
                }
                if x == r.max_x {
                    break;
                }
                x = x + 1;
            }
        }
        proof {
            if r.min_y > r.max_y {
                self.lemma_columns_no_rows(r.min_x as int, r.max_x as int, r.min_y as int, r.max_y as int);
            }
            let g = self.gathered(r);
            assert forall|e: EntityId|
                res@.contains(e) <==> self.ranges().contains_key(e.0) && overlaps(self.ranges()[e.0], r) by {
                lemma_dedup(g, e);
                self.lemma_columns_contains(r.min_x as int, r.max_x as int, r.min_y as int, r.max_y as int, e);
                if g.contains(e) {
                    let (a, b) = choose|a: int, b: int|
                        r.min_x <= a <= r.max_x && r.min_y <= b <= r.max_y && #[trigger] self.cell(a, b).contains(e);
                    let i = choose|i: int| 0 <= i < self.cell(a, b).len() && self.cell(a, b)[i] == e;
                    assert(self.ranges@.contains_key(self.cell(a, b)[i].0));
                }
                if self.ranges().contains_key(e.0) && overlaps(self.ranges()[e.0], r) {
                    let q = self.ranges@[e.0];
                    let a = if q.min_x < r.min_x { r.min_x as int } else { q.min_x as int };
                    let b = if q.min_y < r.min_y { r.min_y as int } else { q.min_y as int };
                    assert(covers(self.ranges@[e.0], a, b));
                    assert(EntityId(e.0) == e);
                    assert(self.cell(a, b).contains(e));
                }
            }
            lemma_dedup(g, EntityId(0));
        }
        res
    }

    /// The numbers of the indexed entities in the order `HashMap::keys`
    /// walks the map of ranges.
    pub closed spec fn walk_order(&self) -> Seq<u64> {
        vstd::std_specs::hash::into_iter_keys(vstd::std_specs::hash::spec_keys_iter(&self.ranges))
    }

    /// Lists every entity again in the cells of its range. The lists keep
    /// the same entities; within a cell they come in the order the map of
    /// ranges is walked.
    pub fn rebuild(&mut self)
        requires
            old(self).wf(),
        ensures
            final(self).wf(),
            final(self).ranges() == old(self).ranges(),
            forall|a: int, b: int|
                #[trigger] final(self).cell(a, b) == covering(old(self).walk_order(), old(self).ranges(), a, b),
            forall|a: int, b: int, e: EntityId|
                #[trigger] final(self).cell(a, b).contains(e) <==> old(self).cell(a, b).contains(e),
    {
        let ghost m = self.ranges@;
        let mut keys: Vec<u64> = Vec::new();
        for k in it: self.ranges.keys()
            invariant
                keys@.len() == it.index(),
                forall|i: int| 0 <= i < it.index() ==> keys@[i] == *it.seq()[i],
        {
            keys.push(*k);
        }
        proof {
            let all = vstd::std_specs::hash::spec_keys_iter(&self.ranges).remaining();
            assert(keys@ =~= all.unref());
            assert(keys@ == old(self).walk_order());
            assert(all.unref().to_set() == m.dom());
            assert forall|k: u64| keys@.contains(k) <==> m.contains_key(k) by {
                assert(keys@.to_set().contains(k) <==> keys@.contains(k));
            }
            assert(keys@.no_duplicates()) by {
                assert forall|i: int, j: int| 0 <= i < keys@.len() && 0 <= j < keys@.len() && i != j implies keys@[i] != keys@[j] by {
                    assert(all[i] != all[j]);
                }
            }
        }
        self.grid.clear();
        let mut j: usize = 0;
        while j < keys.len()
            invariant
                j <= keys@.len(),
                self.ranges@ == m,
                keys@.no_duplicates(),
                forall|k: u64| keys@.contains(k) <==> m.contains_key(k),
                keys@ == old(self).walk_order(),
                m == old(self).ranges(),
                forall|a: int, b: int| #[trigger] self.cell(a, b).no_duplicates(),
                forall|a: int, b: int, e: EntityId|
                    #[trigger] self.cell(a, b).contains(e) <==> (keys@.take(j as int).contains(e.0) && covers(m[e.0], a, b)),
                forall|a: int, b: int| #[trigger] self.cell(a, b) == covering(keys@.take(j as int), m, a, b),
            decreases keys@.len() - j,
        {
            let k = keys[j];
            proof {
                assert(keys@.contains(k));
                assert(keys@.take(j + 1) =~= keys@.take(j as int).push(k));
                if keys@.take(j as int).contains(k) {
                    let i = choose|i: int| 0 <= i < j && #[trigger] keys@.take(j as int)[i] == k;
                    assert(keys@[i] == keys@[j as int]);
                }
            }
            match self.ranges.get(&k) {
                Some(r) => {
                    let r = *r;
                    let ghost before = *self;
                    self.push_range(r, EntityId(k));
                    proof {
                        assert forall|a: int, b: int| #[trigger] self.cell(a, b).no_duplicates() by {
                            if covers(r, a, b) {
                                assert(!before.cell(a, b).contains(EntityId(k)));
                                lemma_push_new_no_duplicates(before.cell(a, b), EntityId(k));
                            }
                        }
                        assert forall|a: int, b: int, e: EntityId|
                            #[trigger] self.cell(a, b).contains(e) <==> (keys@.take(j + 1).contains(e.0) && covers(m[e.0], a, b)) by {
                            lemma_concat_contains(before.cell(a, b), seq![EntityId(k)], e);
                            assert(before.cell(a, b) + seq![EntityId(k)] =~= before.cell(a, b).push(EntityId(k)));
                            assert(seq![EntityId(k)].contains(e) <==> e == EntityId(k)) by {
                                if e == EntityId(k) {
                                    assert(seq![EntityId(k)][0] == e);
                                }
                            }
                            assert(keys@.take(j + 1).contains(e.0) <==> (keys@.take(j as int).contains(e.0) || e.0 == k)) by {
                                if keys@.take(j + 1).contains(e.0) {
                                    let i = choose|i: int| 0 <= i < j + 1 && #[trigger] keys@.take(j + 1)[i] == e.0;
                                    if i < j {
                                        assert(keys@.take(j as int)[i] == e.0);
                                    }
                                }
                                if keys@.take(j as int).contains(e.0) {
                                    let i = choose|i: int| 0 <= i < j && #[trigger] keys@.take(j as int)[i] == e.0;
                                    assert(keys@.take(j + 1)[i] == e.0);
                                }
                                if e.0 == k {
                                    assert(keys@.take(j + 1)[j as int] == e.0);
                                }
                            }
                            assert(e.0 == k ==> e == EntityId(k));
                        }
                        assert forall|a: int, b: int| #[trigger] self.cell(a, b) == covering(keys@.take(j + 1), m, a, b) by {
                            assert(keys@.take(j + 1).drop_last() =~= keys@.take(j as int));
                            assert(keys@.take(j + 1).last() == k);
                            assert(before.cell(a, b) == covering(keys@.take(j as int), m, a, b));
                        }
                    }
                },
                None => {
                    proof {
                        assert forall|a: int, b: int| #[trigger] self.cell(a, b) == covering(keys@.take(j + 1), m, a, b) by {
                            assert(keys@.take(j + 1).drop_last() =~= keys@.take(j as int));
                            assert(keys@.take(j + 1).last() == k);
                        }
                    }
                },
            }
            j = j + 1;
        }
        proof {
            assert(keys@.take(keys@.len() as int) =~= keys@);
            assert forall|a: int, b: int, e: EntityId| #[trigger] self.cell(a, b).contains(e) <==> old(self).cell(a, b).contains(e) by {
                if old(self).cell(a, b).contains(e) {
                    let i = choose|i: int| 0 <= i < old(self).cell(a, b).len() && old(self).cell(a, b)[i] == e;
                    assert(old(self).ranges@.contains_key(old(self).cell(a, b)[i].0));
                }
                if m.contains_key(e.0) && covers(m[e.0], a, b) {
                    assert(covers(old(self).ranges@[e.0], a, b));
                    assert(EntityId(e.0) == e);
                }
            }
            assert forall|x: int, y: int, i: int|
                0 <= i < self.cell(x, y).len() implies #[trigger] self.ranges@.contains_key(self.cell(x, y)[i].0)
                && covers(self.ranges@[self.cell(x, y)[i].0], x, y) by {
                assert(self.cell(x, y).contains(self.cell(x, y)[i]));
            }
            assert forall|k: u64, x: int, y: int|
                self.ranges@.contains_key(k) && #[trigger] covers(self.ranges@[k], x, y) implies self.cell(x, y).contains(
                EntityId(k),
            ) by {
                assert(self.cell(x, y).contains(EntityId(k)) <==> (keys@.contains(k) && covers(m[k], x, y)));
            }
        }
    }
}

} // verus!

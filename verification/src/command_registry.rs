//! Registry of command names, shortcuts and user aliases.
//!
//! Every name is stored upper-cased; lookups upper-case their input first.

use vstd::prelude::*;
use crate::action::ActionType;
use crate::text::{
    chars_of, chars_less, has_prefix, lemma_seq_less_total, lemma_seq_less_transitive, seq_less,
    spec_to_uppercase, starts_with, to_uppercase, is_ascii_text, ascii_upper,
};

verus! {

/// Keys of an association list, by their character view, occur once.
pub open spec fn unique_keys<V>(s: Seq<(String, V)>) -> bool {
    forall|i: int, j: int|
        0 <= i < s.len() && 0 <= j < s.len() && #[trigger] s[i].0@ == #[trigger] s[j].0@ ==> i
            == j
}

/// The map an association list with unique keys stands for.
pub open spec fn assoc_map<V>(s: Seq<(String, V)>) -> Map<Seq<char>, V> {
    Map::new(
        |k: Seq<char>| exists|i: int| 0 <= i < s.len() && #[trigger] s[i].0@ == k,
        |k: Seq<char>| s[choose|i: int| 0 <= i < s.len() && #[trigger] s[i].0@ == k].1,
    )
}

proof fn lemma_assoc_at<V>(s: Seq<(String, V)>, i: int)
    requires
        unique_keys(s),
        0 <= i < s.len(),
    ensures
        assoc_map(s).contains_key(s[i].0@),
        assoc_map(s)[s[i].0@] == s[i].1,
{
    let k = s[i].0@;
    assert(exists|j: int| 0 <= j < s.len() && #[trigger] s[j].0@ == k);
    let j = choose|j: int| 0 <= j < s.len() && #[trigger] s[j].0@ == k;
    assert(s[j].0@ == s[i].0@);
}

/// Position of a key in an association list.
fn find_key<V>(s: &Vec<(String, V)>, k: &String) -> (r: Option<usize>)
    ensures
        match r {
            Some(i) => i < s@.len() && s@[i as int].0@ == k@,
            None => forall|i: int| 0 <= i < s@.len() ==> s@[i].0@ != k@,
        },
{
    let mut i: usize = 0;
    while i < s.len()
        invariant
            i <= s@.len(),
            forall|j: int| 0 <= j < i ==> s@[j].0@ != k@,
        decreases s@.len() - i,
    {
        if s[i].0 == *k {
            return Some(i);
        }
        i = i + 1;
    }
    None
}

/// Inserts or replaces the value of a key (`HashMap::insert`).
fn assoc_insert<V>(s: &mut Vec<(String, V)>, k: String, v: V)
    requires
        unique_keys(old(s)@),
    ensures
        unique_keys(final(s)@),
        assoc_map(final(s)@) == assoc_map(old(s)@).insert(k@, v),
{
    let ghost k_view = k@;
    match find_key(s, &k) {
        Some(i) => {
            let ghost before = s@;
            s.set(i, (k, v));
            proof {
                let after = s@;
                assert forall|a: int, b: int|
                    0 <= a < after.len() && 0 <= b < after.len() && #[trigger] after[a].0@
                        == #[trigger] after[b].0@ implies a == b by {
                    assert(before[a].0@ == after[a].0@);
                    assert(before[b].0@ == after[b].0@);
                }
                assert forall|key: Seq<char>|
                    #[trigger] assoc_map(after).contains_key(key) == assoc_map(before).insert(
                        k_view,
                        v,
                    ).contains_key(key) by {
                    if key == k_view {
                        assert(after[i as int].0@ == key);
                    } else if assoc_map(before).contains_key(key) {
                        let j = choose|j: int| 0 <= j < before.len() && #[trigger] before[j].0@ == key;
                        assert(after[j].0@ == key);
                    } else if assoc_map(after).contains_key(key) {
                        let j = choose|j: int| 0 <= j < after.len() && #[trigger] after[j].0@ == key;
                        assert(before[j].0@ == key);
                    }
                }
                assert forall|key: Seq<char>| #[trigger]
                    assoc_map(after).contains_key(key) implies assoc_map(after)[key] == assoc_map(
                    before,
                ).insert(k_view, v)[key] by {
                    let j = choose|j: int| 0 <= j < after.len() && #[trigger] after[j].0@ == key;
                    lemma_assoc_at(after, j);
                    if key != k_view {
                        assert(before[j].0@ == key);
                        lemma_assoc_at(before, j);
                    }
                }
                assert(assoc_map(after) =~= assoc_map(before).insert(k_view, v));
            }
        },
        None => {
            let ghost before = s@;
            s.push((k, v));
            proof {
                let after = s@;
                let n = before.len() as int;
                assert forall|a: int, b: int|
                    0 <= a < after.len() && 0 <= b < after.len() && #[trigger] after[a].0@
                        == #[trigger] after[b].0@ implies a == b by {
                    if a < n && b < n {
                        assert(before[a].0@ == after[a].0@);
                        assert(before[b].0@ == after[b].0@);
                    } else if a < n {
                        assert(before[a].0@ == after[a].0@);
                    } else if b < n {
                        assert(before[b].0@ == after[b].0@);
                    }
                }
                assert forall|key: Seq<char>|
                    #[trigger] assoc_map(after).contains_key(key) == assoc_map(before).insert(
                        k_view,
                        v,
                    ).contains_key(key) by {
                    if key == k_view {
                        assert(after[n].0@ == key);
                    } else if assoc_map(before).contains_key(key) {
                        let j = choose|j: int| 0 <= j < before.len() && #[trigger] before[j].0@ == key;
                        assert(after[j].0@ == key);
                    } else if assoc_map(after).contains_key(key) {
                        let j = choose|j: int| 0 <= j < after.len() && #[trigger] after[j].0@ == key;
                        assert(before[j].0@ == key);
                    }
                }
                assert forall|key: Seq<char>| #[trigger]
                    assoc_map(after).contains_key(key) implies assoc_map(after)[key] == assoc_map(
                    before,
                ).insert(k_view, v)[key] by {
                    let j = choose|j: int| 0 <= j < after.len() && #[trigger] after[j].0@ == key;
                    lemma_assoc_at(after, j);
                    if key != k_view {
                        assert(before[j].0@ == key);
                        lemma_assoc_at(before, j);
                    }
                }
                assert(assoc_map(after) =~= assoc_map(before).insert(k_view, v));
            }
        },
    }
}

/// Removes a key and its value, if present (`HashMap::remove`).
fn assoc_remove<V>(s: &mut Vec<(String, V)>, k: &String)
    requires
        unique_keys(old(s)@),
    ensures
        unique_keys(final(s)@),
        assoc_map(final(s)@) == assoc_map(old(s)@).remove(k@),
{
    match find_key(s, k) {
        Some(i) => {
            let ghost before = s@;
            s.remove(i);
            proof {
                let after = s@;
                assert(after =~= before.remove(i as int));
                assert forall|a: int, b: int|
                    0 <= a < after.len() && 0 <= b < after.len() && #[trigger] after[a].0@
                        == #[trigger] after[b].0@ implies a == b by {
                    let a2 = if a < i { a } else { a + 1 };
                    let b2 = if b < i { b } else { b + 1 };
                    assert(after[a] == before[a2]);
                    assert(after[b] == before[b2]);
                }
                assert forall|key: Seq<char>|
                    #[trigger] assoc_map(after).contains_key(key) == assoc_map(before).remove(
                        k@,
                    ).contains_key(key) by {
                    if assoc_map(after).contains_key(key) {
                        let j = choose|j: int| 0 <= j < after.len() && #[trigger] after[j].0@ == key;
                        let j2 = if j < i { j } else { j + 1 };
                        assert(after[j] == before[j2]);
                        assert(before[j2].0@ == key);
                    }
                    if key != k@ && assoc_map(before).contains_key(key) {
                        let j = choose|j: int| 0 <= j < before.len() && #[trigger] before[j].0@ == key;
                        assert(j != i);
                        let j2 = if j < i { j } else { j - 1 };
                        assert(after[j2] == before[j]);
                        assert(after[j2].0@ == key);
                    }
                }
                assert forall|key: Seq<char>| #[trigger]
                    assoc_map(after).contains_key(key) implies assoc_map(after)[key] == assoc_map(
                    before,
                ).remove(k@)[key] by {
                    let j = choose|j: int| 0 <= j < after.len() && #[trigger] after[j].0@ == key;
                    let j2 = if j < i { j } else { j + 1 };
                    assert(after[j] == before[j2]);
                    lemma_assoc_at(after, j);
                    lemma_assoc_at(before, j2);
                }
                assert(assoc_map(after) =~= assoc_map(before).remove(k@));
            }
        },
        None => {
            proof {
                assert forall|key: Seq<char>|
                    #[trigger] assoc_map(s@).contains_key(key) implies key != k@ by {
                    let j = choose|j: int| 0 <= j < s@.len() && #[trigger] s@[j].0@ == key;
                }
                assert(assoc_map(s@) =~= assoc_map(s@).remove(k@));
            }
        },
    }
}

/// The value of a key, if present.
fn assoc_get<V: Copy>(s: &Vec<(String, V)>, k: &String) -> (r: Option<V>)
    requires
        unique_keys(s@),
    ensures
        r == (if assoc_map(s@).contains_key(k@) {
            Some(assoc_map(s@)[k@])
        } else {
            None::<V>
        }),
{
    match find_key(s, k) {
        Some(i) => {
            proof {
                lemma_assoc_at(s@, i as int);
            }
            Some(s[i].1)
        },
        None => {
            assert(!assoc_map(s@).contains_key(k@));
            None
        },
    }
}

/// Whether a key is present.
fn assoc_has<V>(s: &Vec<(String, V)>, k: &String) -> (r: bool)
    requires
        unique_keys(s@),
    ensures
        r == assoc_map(s@).contains_key(k@),
{
    match find_key(s, k) {
        Some(i) => {
            proof {
                lemma_assoc_at(s@, i as int);
            }
            true
        },
        None => false,
    }
}

/// Number of keys of an association list with unique keys.
proof fn lemma_assoc_len<V>(s: Seq<(String, V)>)
    requires
        unique_keys(s),
    ensures
        assoc_map(s).dom().finite(),
        assoc_map(s).len() == s.len(),
    decreases s.len(),
{
    let m = assoc_map(s);
    if s.len() == 0 {
        assert(m.dom() =~= Set::<Seq<char>>::empty());
    } else {
        let t = s.drop_last();
        let k = s.last().0@;
        assert forall|i: int, j: int|
            0 <= i < t.len() && 0 <= j < t.len() && #[trigger] t[i].0@ == #[trigger] t[j].0@ implies i
            == j by {
            assert(t[i] == s[i] && t[j] == s[j]);
        }
        lemma_assoc_len(t);
        assert(m.dom() =~= assoc_map(t).dom().insert(k)) by {
            assert forall|x: Seq<char>| #[trigger] m.dom().contains(x) <==> assoc_map(t).dom().insert(
                k,
            ).contains(x) by {
                if m.dom().contains(x) && x != k {
                    let i = choose|i: int| 0 <= i < s.len() && #[trigger] s[i].0@ == x;
                    assert(i != s.len() - 1);
                    assert(t[i].0@ == x);
                }
                if assoc_map(t).dom().contains(x) {
                    let i = choose|i: int| 0 <= i < t.len() && #[trigger] t[i].0@ == x;
                    assert(s[i].0@ == x);
                }
                if x == k {
                    assert(s[s.len() - 1].0@ == x);
                }
            }
        }
        assert(!assoc_map(t).dom().contains(k)) by {
            if assoc_map(t).dom().contains(k) {
                let i = choose|i: int| 0 <= i < t.len() && #[trigger] t[i].0@ == k;
                assert(s[i].0@ == s[s.len() - 1].0@);
            }
        }
    }
}

/// The entries of an association list, keys borrowed.
fn all_entries<V: Copy>(s: &Vec<(String, V)>) -> (r: Vec<(&str, V)>)
    requires
        unique_keys(s@),
    ensures
        r@.len() == assoc_map(s@).len(),
        forall|i: int|
            0 <= i < r@.len() ==> assoc_map(s@).contains_key(#[trigger] r@[i].0@)
                && assoc_map(s@)[r@[i].0@] == r@[i].1,
        forall|k: Seq<char>|
            assoc_map(s@).contains_key(k) ==> exists|i: int|
                0 <= i < r@.len() && #[trigger] r@[i].0@ == k,
        forall|i: int, j: int| 0 <= i < j < r@.len() ==> #[trigger] r@[i].0@ != #[trigger] r@[j].0@,
{
    let mut r: Vec<(&str, V)> = Vec::new();
    let mut i: usize = 0;
    while i < s.len()
        invariant
            unique_keys(s@),
            i <= s@.len(),
            r@.len() == i,
            forall|j: int| 0 <= j < i ==> (#[trigger] r@[j]).0@ == s@[j].0@ && r@[j].1 == s@[j].1,
        decreases s@.len() - i,
    {
        r.push((s[i].0.as_str(), s[i].1));
        i = i + 1;
    }
    proof {
        lemma_assoc_len(s@);
        assert forall|j: int| 0 <= j < r@.len() implies assoc_map(s@).contains_key(
            #[trigger] r@[j].0@,
        ) && assoc_map(s@)[r@[j].0@] == r@[j].1 by {
            lemma_assoc_at(s@, j);
        }
        assert forall|k: Seq<char>| assoc_map(s@).contains_key(k) implies exists|j: int|
            0 <= j < r@.len() && #[trigger] r@[j].0@ == k by {
            let j = choose|j: int| 0 <= j < s@.len() && #[trigger] s@[j].0@ == k;
            assert(r@[j].0@ == k);
        }
    }
    r
}

/// Keys of a list keyed by action kind occur once.
pub open spec fn unique_actions(s: Seq<(ActionType, String)>) -> bool {
    forall|i: int, j: int|
        0 <= i < s.len() && 0 <= j < s.len() && #[trigger] s[i].0 == #[trigger] s[j].0 ==> i == j
}

/// The map a list keyed by action kind stands for.
pub open spec fn action_map(s: Seq<(ActionType, String)>) -> Map<ActionType, Seq<char>> {
    Map::new(
        |a: ActionType| exists|i: int| 0 <= i < s.len() && #[trigger] s[i].0 == a,
        |a: ActionType| s[choose|i: int| 0 <= i < s.len() && #[trigger] s[i].0 == a].1@,
    )
}

proof fn lemma_action_at(s: Seq<(ActionType, String)>, i: int)
    requires
        unique_actions(s),
        0 <= i < s.len(),
    ensures
        action_map(s).contains_key(s[i].0),
        action_map(s)[s[i].0] == s[i].1@,
{
    let a = s[i].0;
    assert(exists|j: int| 0 <= j < s.len() && #[trigger] s[j].0 == a);
    let j = choose|j: int| 0 <= j < s.len() && #[trigger] s[j].0 == a;
    assert(s[j].0 == s[i].0);
}

/// Position of an action in a list keyed by action kind.
fn find_action(s: &Vec<(ActionType, String)>, a: ActionType) -> (r: Option<usize>)
    ensures
        match r {
            Some(i) => i < s@.len() && s@[i as int].0 == a,
            None => forall|i: int| 0 <= i < s@.len() ==> s@[i].0 != a,
        },
{
    let mut i: usize = 0;
    while i < s.len()
        invariant
            i <= s@.len(),
            forall|j: int| 0 <= j < i ==> s@[j].0 != a,
        decreases s@.len() - i,
    {
        if s[i].0 == a {
            return Some(i);
        }
        i = i + 1;
    }
    None
}

/// Inserts or replaces the name of an action.
fn action_insert(s: &mut Vec<(ActionType, String)>, a: ActionType, name: String)
    requires
        unique_actions(old(s)@),
    ensures
        unique_actions(final(s)@),
        action_map(final(s)@) == action_map(old(s)@).insert(a, name@),
{
    let ghost nv = name@;
    let ghost before = s@;
    let found = find_action(s, a);
    let ghost n = before.len() as int;
    match found {
        Some(i) => {
            s.set(i, (a, name));
        },
        None => {
            s.push((a, name));
        },
    }
    proof {
        let after = s@;
        let pos = match found {
            Some(i) => i as int,
            None => n,
        };
        assert(after[pos].0 == a && after[pos].1@ == nv);
        assert forall|x: int| 0 <= x < after.len() && x != pos implies #[trigger] after[x]
            == before[x] by {}
        assert forall|x: int, y: int|
            0 <= x < after.len() && 0 <= y < after.len() && #[trigger] after[x].0
                == #[trigger] after[y].0 implies x == y by {
            if x != pos {
                assert(after[x] == before[x]);
            }
            if y != pos {
                assert(after[y] == before[y]);
            }
        }
        assert forall|b: ActionType|
            #[trigger] action_map(after).contains_key(b) == action_map(before).insert(
                a,
                nv,
            ).contains_key(b) by {
            if b == a {
                assert(after[pos].0 == b);
            } else if action_map(before).contains_key(b) {
                let j = choose|j: int| 0 <= j < before.len() && #[trigger] before[j].0 == b;
                assert(j != pos);
                assert(after[j] == before[j]);
            } else if action_map(after).contains_key(b) {
                let j = choose|j: int| 0 <= j < after.len() && #[trigger] after[j].0 == b;
                assert(after[j] == before[j]);
            }
        }
        assert forall|b: ActionType| #[trigger]
            action_map(after).contains_key(b) implies action_map(after)[b] == action_map(
            before,
        ).insert(a, nv)[b] by {
            let j = choose|j: int| 0 <= j < after.len() && #[trigger] after[j].0 == b;
            lemma_action_at(after, j);
            if b != a {
                assert(after[j] == before[j]);
                lemma_action_at(before, j);
            } else {
                assert(j == pos);
            }
        }
        assert(action_map(after) =~= action_map(before).insert(a, nv));
    }
}

/// The text views of a list of string slices.
pub open spec fn str_views(s: Seq<&str>) -> Seq<Seq<char>> {
    s.map_values(|x: &str| x@)
}

/// The shortcut map after registering each shortcut, upper-cased, in turn.
pub open spec fn with_shortcuts(
    m: Map<Seq<char>, ActionType>,
    keys: Seq<Seq<char>>,
    a: ActionType,
) -> Map<Seq<char>, ActionType>
    decreases keys.len(),
{
    if keys.len() == 0 {
        m
    } else {
        with_shortcuts(m.insert(spec_to_uppercase(keys[0]), a), keys.drop_first(), a)
    }
}

proof fn lemma_with_shortcuts_push(
    m: Map<Seq<char>, ActionType>,
    keys: Seq<Seq<char>>,
    k: Seq<char>,
    a: ActionType,
)
    ensures
        with_shortcuts(m, keys.push(k), a) == with_shortcuts(m, keys, a).insert(
            spec_to_uppercase(k),
            a,
        ),
    decreases keys.len(),
{
    let pushed = keys.push(k);
    if keys.len() == 0 {
        assert(pushed[0] == k);
        assert(pushed.drop_first() =~= Seq::<Seq<char>>::empty());
        assert(with_shortcuts(m, pushed, a) == with_shortcuts(
            m.insert(spec_to_uppercase(k), a),
            pushed.drop_first(),
            a,
        ));
        assert(with_shortcuts(m.insert(spec_to_uppercase(k), a), pushed.drop_first(), a) == m.insert(
            spec_to_uppercase(k),
            a,
        ));
        assert(with_shortcuts(m, keys, a) == m);
    } else {
        let m2 = m.insert(spec_to_uppercase(keys[0]), a);
        assert(pushed[0] == keys[0]);
        assert(pushed.drop_first() =~= keys.drop_first().push(k));
        lemma_with_shortcuts_push(m2, keys.drop_first(), k, a);
        assert(with_shortcuts(m, pushed, a) == with_shortcuts(m2, pushed.drop_first(), a));
        assert(with_shortcuts(m, keys, a) == with_shortcuts(m2, keys.drop_first(), a));
    }
}

/// The text views of a list of strings.
pub open spec fn string_views(s: Seq<String>) -> Seq<Seq<char>> {
    s.map_values(|x: String| x@)
}

/// Strictly increasing in the lexicographic order.
pub open spec fn sorted_strictly(v: Seq<Seq<char>>) -> bool {
    forall|i: int, j: int| 0 <= i < j < v.len() ==> seq_less(#[trigger] v[i], #[trigger] v[j])
}

/// Inserts a new text into a strictly sorted list at its place.
fn insert_sorted(r: &mut Vec<String>, k: String)
    requires
        sorted_strictly(string_views(old(r)@)),
        !string_views(old(r)@).contains(k@),
    ensures
        sorted_strictly(string_views(final(r)@)),
        final(r)@.len() == old(r)@.len() + 1,
        forall|x: Seq<char>|
            #![trigger string_views(final(r)@).contains(x)]
            string_views(final(r)@).contains(x) <==> (x == k@ || string_views(old(r)@).contains(x)),
{
    let ghost before = string_views(r@);
    let kc = chars_of(k.as_str());
    let mut pos: usize = 0;
    while pos < r.len() && !chars_less(kc.as_slice(), chars_of(r[pos].as_str()).as_slice())
        invariant
            pos <= r@.len(),
            kc@ == k@,
            string_views(r@) == before,
            forall|j: int| 0 <= j < pos ==> !seq_less(k@, #[trigger] before[j]),
        decreases r@.len() - pos,
    {
        pos = pos + 1;
    }
    r.insert(pos, k);
    proof {
        let after = string_views(r@);
        assert(after =~= before.insert(pos as int, kc@));
        assert forall|j: int| 0 <= j < pos implies seq_less(#[trigger] before[j], k@) by {
            assert(before.contains(before[j]));
            lemma_seq_less_total(before[j], k@);
        }
        assert forall|j: int| pos <= j < before.len() implies seq_less(k@, #[trigger] before[j]) by {
            if j > pos {
                assert(seq_less(k@, before[pos as int]));
                assert(seq_less(before[pos as int], before[j]));
                lemma_seq_less_transitive(k@, before[pos as int], before[j]);
            }
        }
        assert forall|i: int, j: int| 0 <= i < j < after.len() implies seq_less(
            #[trigger] after[i],
            #[trigger] after[j],
        ) by {
            if j < pos {
            } else if j == pos {
                assert(after[j] == k@);
            } else if i < pos {
                assert(after[j] == before[j - 1]);
                lemma_seq_less_transitive(before[i], k@, before[j - 1]);
            } else if i == pos {
                assert(after[j] == before[j - 1]);
            } else {
                assert(after[i] == before[i - 1]);
                assert(after[j] == before[j - 1]);
            }
        }
        assert forall|x: Seq<char>|
            #![trigger after.contains(x)]
            after.contains(x) <==> (x == k@ || before.contains(x)) by {
            if after.contains(x) {
                let i = choose|i: int| 0 <= i < after.len() && after[i] == x;
                if i < pos {
                    assert(before[i] == x);
                } else if i > pos {
                    assert(before[i - 1] == x);
                }
            }
            if x == k@ {
                assert(after[pos as int] == x);
            } else if before.contains(x) {
                let i = choose|i: int| 0 <= i < before.len() && before[i] == x;
                if i < pos {
                    assert(after[i] == x);
                } else {
                    assert(after[i + 1] == x);
                }
            }
        }
    }
}

/// What a lookup finds for an upper-cased name: a full command first, then a
/// shortcut, then an alias of a full command.
pub open spec fn resolve(
    main: Map<Seq<char>, ActionType>,
    short: Map<Seq<char>, ActionType>,
    aliases: Map<Seq<char>, Seq<char>>,
    u: Seq<char>,
) -> Option<ActionType> {
    if main.contains_key(u) {
        Some(main[u])
    } else if short.contains_key(u) {
        Some(short[u])
    } else if aliases.contains_key(u) && main.contains_key(aliases[u]) {
        Some(main[aliases[u]])
    } else {
        None
    }
}

/// Full command names of the built-in commands, upper-cased.
pub open spec fn default_main_map() -> Map<Seq<char>, ActionType> {
    Map::<Seq<char>, ActionType>::empty()
        .insert(spec_to_uppercase("LINE"@), ActionType::DrawLine)
        .insert(spec_to_uppercase("CIRCLE"@), ActionType::DrawCircle)
        .insert(spec_to_uppercase("ARC"@), ActionType::DrawArc)
        .insert(spec_to_uppercase("POLYLINE"@), ActionType::DrawPolyline)
        .insert(spec_to_uppercase("RECTANGLE"@), ActionType::DrawRectangle)
        .insert(spec_to_uppercase("POINT"@), ActionType::DrawPoint)
        .insert(spec_to_uppercase("TEXT"@), ActionType::DrawText)
        .insert(spec_to_uppercase("DIMENSION"@), ActionType::DrawDimension)
        .insert(spec_to_uppercase("DIMRADIUS"@), ActionType::DrawDimensionRadius)
        .insert(spec_to_uppercase("DIMDIAMETER"@), ActionType::DrawDimensionDiameter)
        .insert(spec_to_uppercase("MOVE"@), ActionType::Move)
        .insert(spec_to_uppercase("COPY"@), ActionType::Copy)
        .insert(spec_to_uppercase("ROTATE"@), ActionType::Rotate)
        .insert(spec_to_uppercase("SCALE"@), ActionType::Scale)
        .insert(spec_to_uppercase("MIRROR"@), ActionType::Mirror)
        .insert(spec_to_uppercase("ERASE"@), ActionType::Erase)
        .insert(spec_to_uppercase("SELECT"@), ActionType::Select)
}

/// Shortcuts of the built-in commands, registered in order.
pub open spec fn default_short_map() -> Map<Seq<char>, ActionType> {
    with_shortcuts(
        with_shortcuts(
        with_shortcuts(
        with_shortcuts(
        with_shortcuts(
        with_shortcuts(
        with_shortcuts(
        with_shortcuts(
        with_shortcuts(
        with_shortcuts(
        with_shortcuts(
        with_shortcuts(
        with_shortcuts(
        with_shortcuts(
        with_shortcuts(
        with_shortcuts(
        with_shortcuts(
        Map::<Seq<char>, ActionType>::empty(),
        seq!["L"@],
        ActionType::DrawLine,
    ),
        seq!["C"@],
        ActionType::DrawCircle,
    ),
        seq!["A"@],
        ActionType::DrawArc,
    ),
        seq!["PL"@, "P"@, "PLINE"@],
        ActionType::DrawPolyline,
    ),
        seq!["REC"@, "R"@],
        ActionType::DrawRectangle,
    ),
        seq!["."@],
        ActionType::DrawPoint,
    ),
        seq!["T"@, "DTEXT"@, "MTEXT"@],
        ActionType::DrawText,
    ),
        seq!["DIM"@, "D"@, "DIMLINEAR"@, "DIMALIGNED"@],
        ActionType::DrawDimension,
    ),
        seq!["DRA"@],
        ActionType::DrawDimensionRadius,
    ),
        seq!["DDI"@],
        ActionType::DrawDimensionDiameter,
    ),
        seq!["M"@],
        ActionType::Move,
    ),
        seq!["CO"@, "CP"@],
        ActionType::Copy,
    ),
        seq!["RO"@],
        ActionType::Rotate,
    ),
        seq!["SC"@],
        ActionType::Scale,
    ),
        seq!["MI"@],
        ActionType::Mirror,
    ),
        seq!["E"@, "DELETE"@],
        ActionType::Erase,
    ),
        seq!["SEL"@],
        ActionType::Select,
    )
}

/// The built-in full command names.
pub open spec fn builtin_names() -> Seq<Seq<char>> {
    seq![
        "LINE"@,
        "CIRCLE"@,
        "ARC"@,
        "POLYLINE"@,
        "RECTANGLE"@,
        "POINT"@,
        "TEXT"@,
        "DIMENSION"@,
        "DIMRADIUS"@,
        "DIMDIAMETER"@,
        "MOVE"@,
        "COPY"@,
        "ROTATE"@,
        "SCALE"@,
        "MIRROR"@,
        "ERASE"@,
        "SELECT"@,
    ]
}

/// The built-in shortcuts.
pub open spec fn builtin_shortcuts() -> Seq<Seq<char>> {
    seq![
        "L"@,
        "C"@,
        "A"@,
        "PL"@,
        "P"@,
        "PLINE"@,
        "REC"@,
        "R"@,
        "."@,
        "T"@,
        "DTEXT"@,
        "MTEXT"@,
        "DIM"@,
        "D"@,
        "DIMLINEAR"@,
        "DIMALIGNED"@,
        "DRA"@,
        "DDI"@,
        "M"@,
        "CO"@,
        "CP"@,
        "RO"@,
        "SC"@,
        "MI"@,
        "E"@,
        "DELETE"@,
        "SEL"@,
    ]
}

proof fn lemma_with_shortcuts_dom(m: Map<Seq<char>, ActionType>, keys: Seq<Seq<char>>, a: ActionType, k: Seq<char>)
    ensures
        with_shortcuts(m, keys, a).contains_key(k) ==> m.contains_key(k) || exists|i: int|
            0 <= i < keys.len() && spec_to_uppercase(#[trigger] keys[i]) == k,
    decreases keys.len(),
{
    if keys.len() > 0 {
        let m2 = m.insert(spec_to_uppercase(keys[0]), a);
        let rest = keys.drop_first();
        lemma_with_shortcuts_dom(m2, rest, a, k);
        if with_shortcuts(m, keys, a).contains_key(k) && !m.contains_key(k) {
            if m2.contains_key(k) {
                assert(spec_to_uppercase(keys[0]) == k);
            } else {
                let i = choose|i: int| 0 <= i < rest.len() && spec_to_uppercase(#[trigger] rest[i]) == k;
                assert(keys[i + 1] == rest[i]);
            }
        }
    }
}

/// The length, first and last character of a text.
spec fn text_sig(s: Seq<char>) -> (nat, char, char) {
    (s.len(), s[0], s[s.len() - 1])
}

/// No built-in full command name is a built-in shortcut.
proof fn lemma_names_are_not_shortcuts()
    ensures
        forall|t: int, u: int|
            0 <= t < builtin_names().len() && 0 <= u < builtin_shortcuts().len() ==> #[trigger] builtin_names()[t]
                != #[trigger] builtin_shortcuts()[u],
{
    reveal_strlit(".");
    reveal_strlit("A");
    reveal_strlit("ARC");
    reveal_strlit("C");
    reveal_strlit("CIRCLE");
    reveal_strlit("CO");
    reveal_strlit("COPY");
    reveal_strlit("CP");
    reveal_strlit("D");
    reveal_strlit("DDI");
    reveal_strlit("DELETE");
    reveal_strlit("DIM");
    reveal_strlit("DIMALIGNED");
    reveal_strlit("DIMDIAMETER");
    reveal_strlit("DIMENSION");
    reveal_strlit("DIMLINEAR");
    reveal_strlit("DIMRADIUS");
    reveal_strlit("DRA");
    reveal_strlit("DTEXT");
    reveal_strlit("E");
    reveal_strlit("ERASE");
    reveal_strlit("L");
    reveal_strlit("LINE");
    reveal_strlit("M");
    reveal_strlit("MI");
    reveal_strlit("MIRROR");
    reveal_strlit("MOVE");
    reveal_strlit("MTEXT");
    reveal_strlit("P");
    reveal_strlit("PL");
    reveal_strlit("PLINE");
    reveal_strlit("POINT");
    reveal_strlit("POLYLINE");
    reveal_strlit("R");
    reveal_strlit("REC");
    reveal_strlit("RECTANGLE");
    reveal_strlit("RO");
    reveal_strlit("ROTATE");
    reveal_strlit("SC");
    reveal_strlit("SCALE");
    reveal_strlit("SEL");
    reveal_strlit("SELECT");
    reveal_strlit("T");
    reveal_strlit("TEXT");
    let n = builtin_names();
    let sc = builtin_shortcuts();
    let ns: Seq<(nat, char, char)> = seq![(4nat, 'L', 'E'), (6nat, 'C', 'E'), (3nat, 'A', 'C'), (8nat, 'P', 'E'), (9nat, 'R', 'E'), (5nat, 'P', 'T'), (4nat, 'T', 'T'), (9nat, 'D', 'N'), (9nat, 'D', 'S'), (11nat, 'D', 'R'), (4nat, 'M', 'E'), (4nat, 'C', 'Y'), (6nat, 'R', 'E'), (5nat, 'S', 'E'), (6nat, 'M', 'R'), (5nat, 'E', 'E'), (6nat, 'S', 'T')];
    let ss: Seq<(nat, char, char)> = seq![(1nat, 'L', 'L'), (1nat, 'C', 'C'), (1nat, 'A', 'A'), (2nat, 'P', 'L'), (1nat, 'P', 'P'), (5nat, 'P', 'E'), (3nat, 'R', 'C'), (1nat, 'R', 'R'), (1nat, '.', '.'), (1nat, 'T', 'T'), (5nat, 'D', 'T'), (5nat, 'M', 'T'), (3nat, 'D', 'M'), (1nat, 'D', 'D'), (9nat, 'D', 'R'), (10nat, 'D', 'D'), (3nat, 'D', 'A'), (3nat, 'D', 'I'), (1nat, 'M', 'M'), (2nat, 'C', 'O'), (2nat, 'C', 'P'), (2nat, 'R', 'O'), (2nat, 'S', 'C'), (2nat, 'M', 'I'), (1nat, 'E', 'E'), (6nat, 'D', 'E'), (3nat, 'S', 'L')];
    assert forall|t: int| 0 <= t < n.len() implies text_sig(#[trigger] n[t]) == ns[t] by {
        assert(t == 0 || t == 1 || t == 2 || t == 3 || t == 4 || t == 5 || t == 6 || t == 7 || t == 8 || t == 9 || t == 10 || t == 11 || t == 12 || t == 13 || t == 14 || t == 15 || t == 16);
    }
    assert forall|u: int| 0 <= u < sc.len() implies text_sig(#[trigger] sc[u]) == ss[u] by {
        assert(u == 0 || u == 1 || u == 2 || u == 3 || u == 4 || u == 5 || u == 6 || u == 7 || u == 8 || u == 9 || u == 10 || u == 11 || u == 12 || u == 13 || u == 14 || u == 15 || u == 16 || u == 17 || u == 18 || u == 19 || u == 20 || u == 21 || u == 22 || u == 23 || u == 24 || u == 25 || u == 26);
    }
    assert forall|t: int, u: int| 0 <= t < n.len() && 0 <= u < sc.len() implies #[trigger] ns[t] != #[trigger] ss[u] by {
        assert(t == 0 || t == 1 || t == 2 || t == 3 || t == 4 || t == 5 || t == 6 || t == 7 || t == 8 || t == 9 || t == 10 || t == 11 || t == 12 || t == 13 || t == 14 || t == 15 || t == 16);
        assert(u == 0 || u == 1 || u == 2 || u == 3 || u == 4 || u == 5 || u == 6 || u == 7 || u == 8 || u == 9 || u == 10 || u == 11 || u == 12 || u == 13 || u == 14 || u == 15 || u == 16 || u == 17 || u == 18 || u == 19 || u == 20 || u == 21 || u == 22 || u == 23 || u == 24 || u == 25 || u == 26);
    }
    assert forall|t: int, u: int| 0 <= t < n.len() && 0 <= u < sc.len() implies #[trigger] n[t] != #[trigger] sc[u] by {
        assert(text_sig(n[t]) == ns[t]);
        assert(text_sig(sc[u]) == ss[u]);
        assert(ns[t] != ss[u]);
    }
}

/// A built-in full command name is not a key of the built-in shortcut map.
proof fn lemma_builtin_names_not_shortcuts(k: Seq<char>)
    requires
        builtin_names().contains(k),
        forall|i: int| 0 <= i < builtin_shortcuts().len() ==> #[trigger] spec_to_uppercase(builtin_shortcuts()[i])
            == builtin_shortcuts()[i],
    ensures
        !default_short_map().contains_key(k),
{
    lemma_names_are_not_shortcuts();
    let t = choose|t: int| 0 <= t < builtin_names().len() && builtin_names()[t] == k;
    assert forall|u: int| 0 <= u < builtin_shortcuts().len() implies builtin_shortcuts()[u] != k by {
        assert(builtin_names()[t] != builtin_shortcuts()[u]);
    }
    let sc = builtin_shortcuts();
    let m0 = Map::<Seq<char>, ActionType>::empty();
    let k1 = sc.subrange(0, 1);
    assert(k1 =~= seq!["L"@]);
    let m1 = with_shortcuts(m0, k1, ActionType::DrawLine);
    let k2 = sc.subrange(1, 2);
    assert(k2 =~= seq!["C"@]);
    let m2 = with_shortcuts(m1, k2, ActionType::DrawCircle);
    let k3 = sc.subrange(2, 3);
    assert(k3 =~= seq!["A"@]);
    let m3 = with_shortcuts(m2, k3, ActionType::DrawArc);
    let k4 = sc.subrange(3, 6);
    assert(k4 =~= seq!["PL"@, "P"@, "PLINE"@]);
    let m4 = with_shortcuts(m3, k4, ActionType::DrawPolyline);
    let k5 = sc.subrange(6, 8);
    assert(k5 =~= seq!["REC"@, "R"@]);
    let m5 = with_shortcuts(m4, k5, ActionType::DrawRectangle);
    let k6 = sc.subrange(8, 9);
    assert(k6 =~= seq!["."@]);
    let m6 = with_shortcuts(m5, k6, ActionType::DrawPoint);
    let k7 = sc.subrange(9, 12);
    assert(k7 =~= seq!["T"@, "DTEXT"@, "MTEXT"@]);
    let m7 = with_shortcuts(m6, k7, ActionType::DrawText);
    let k8 = sc.subrange(12, 16);
    assert(k8 =~= seq!["DIM"@, "D"@, "DIMLINEAR"@, "DIMALIGNED"@]);
    let m8 = with_shortcuts(m7, k8, ActionType::DrawDimension);
    let k9 = sc.subrange(16, 17);
    assert(k9 =~= seq!["DRA"@]);
    let m9 = with_shortcuts(m8, k9, ActionType::DrawDimensionRadius);
    let k10 = sc.subrange(17, 18);
    assert(k10 =~= seq!["DDI"@]);
    let m10 = with_shortcuts(m9, k10, ActionType::DrawDimensionDiameter);
    let k11 = sc.subrange(18, 19);
    assert(k11 =~= seq!["M"@]);
    let m11 = with_shortcuts(m10, k11, ActionType::Move);
    let k12 = sc.subrange(19, 21);
    assert(k12 =~= seq!["CO"@, "CP"@]);
    let m12 = with_shortcuts(m11, k12, ActionType::Copy);
    let k13 = sc.subrange(21, 22);
    assert(k13 =~= seq!["RO"@]);
    let m13 = with_shortcuts(m12, k13, ActionType::Rotate);
    let k14 = sc.subrange(22, 23);
    assert(k14 =~= seq!["SC"@]);
    let m14 = with_shortcuts(m13, k14, ActionType::Scale);
    let k15 = sc.subrange(23, 24);
    assert(k15 =~= seq!["MI"@]);
    let m15 = with_shortcuts(m14, k15, ActionType::Mirror);
    let k16 = sc.subrange(24, 26);
    assert(k16 =~= seq!["E"@, "DELETE"@]);
    let m16 = with_shortcuts(m15, k16, ActionType::Erase);
    let k17 = sc.subrange(26, 27);
    assert(k17 =~= seq!["SEL"@]);
    let m17 = with_shortcuts(m16, k17, ActionType::Select);
    assert(default_short_map() == m17);
    lemma_with_shortcuts_dom(m0, k1, ActionType::DrawLine, k);
    assert forall|i: int| 0 <= i < k1.len() implies spec_to_uppercase(#[trigger] k1[i]) != k by {
        assert(k1[i] == sc[0 + i]);
    }
    lemma_with_shortcuts_dom(m1, k2, ActionType::DrawCircle, k);
    assert forall|i: int| 0 <= i < k2.len() implies spec_to_uppercase(#[trigger] k2[i]) != k by {
        assert(k2[i] == sc[1 + i]);
    }
    lemma_with_shortcuts_dom(m2, k3, ActionType::DrawArc, k);
    assert forall|i: int| 0 <= i < k3.len() implies spec_to_uppercase(#[trigger] k3[i]) != k by {
        assert(k3[i] == sc[2 + i]);
    }
    lemma_with_shortcuts_dom(m3, k4, ActionType::DrawPolyline, k);
    assert forall|i: int| 0 <= i < k4.len() implies spec_to_uppercase(#[trigger] k4[i]) != k by {
        assert(k4[i] == sc[3 + i]);
    }
    lemma_with_shortcuts_dom(m4, k5, ActionType::DrawRectangle, k);
    assert forall|i: int| 0 <= i < k5.len() implies spec_to_uppercase(#[trigger] k5[i]) != k by {
        assert(k5[i] == sc[6 + i]);
    }
    lemma_with_shortcuts_dom(m5, k6, ActionType::DrawPoint, k);
    assert forall|i: int| 0 <= i < k6.len() implies spec_to_uppercase(#[trigger] k6[i]) != k by {
        assert(k6[i] == sc[8 + i]);
    }
    lemma_with_shortcuts_dom(m6, k7, ActionType::DrawText, k);
    assert forall|i: int| 0 <= i < k7.len() implies spec_to_uppercase(#[trigger] k7[i]) != k by {
        assert(k7[i] == sc[9 + i]);
    }
    lemma_with_shortcuts_dom(m7, k8, ActionType::DrawDimension, k);
    assert forall|i: int| 0 <= i < k8.len() implies spec_to_uppercase(#[trigger] k8[i]) != k by {
        assert(k8[i] == sc[12 + i]);
    }
    lemma_with_shortcuts_dom(m8, k9, ActionType::DrawDimensionRadius, k);
    assert forall|i: int| 0 <= i < k9.len() implies spec_to_uppercase(#[trigger] k9[i]) != k by {
        assert(k9[i] == sc[16 + i]);
    }
    lemma_with_shortcuts_dom(m9, k10, ActionType::DrawDimensionDiameter, k);
    assert forall|i: int| 0 <= i < k10.len() implies spec_to_uppercase(#[trigger] k10[i]) != k by {
        assert(k10[i] == sc[17 + i]);
    }
    lemma_with_shortcuts_dom(m10, k11, ActionType::Move, k);
    assert forall|i: int| 0 <= i < k11.len() implies spec_to_uppercase(#[trigger] k11[i]) != k by {
        assert(k11[i] == sc[18 + i]);
    }
    lemma_with_shortcuts_dom(m11, k12, ActionType::Copy, k);
    assert forall|i: int| 0 <= i < k12.len() implies spec_to_uppercase(#[trigger] k12[i]) != k by {
        assert(k12[i] == sc[19 + i]);
    }
    lemma_with_shortcuts_dom(m12, k13, ActionType::Rotate, k);
    assert forall|i: int| 0 <= i < k13.len() implies spec_to_uppercase(#[trigger] k13[i]) != k by {
        assert(k13[i] == sc[21 + i]);
    }
    lemma_with_shortcuts_dom(m13, k14, ActionType::Scale, k);
    assert forall|i: int| 0 <= i < k14.len() implies spec_to_uppercase(#[trigger] k14[i]) != k by {
        assert(k14[i] == sc[22 + i]);
    }
    lemma_with_shortcuts_dom(m14, k15, ActionType::Mirror, k);
    assert forall|i: int| 0 <= i < k15.len() implies spec_to_uppercase(#[trigger] k15[i]) != k by {
        assert(k15[i] == sc[23 + i]);
    }
    lemma_with_shortcuts_dom(m15, k16, ActionType::Erase, k);
    assert forall|i: int| 0 <= i < k16.len() implies spec_to_uppercase(#[trigger] k16[i]) != k by {
        assert(k16[i] == sc[24 + i]);
    }
    lemma_with_shortcuts_dom(m16, k17, ActionType::Select, k);
    assert forall|i: int| 0 <= i < k17.len() implies spec_to_uppercase(#[trigger] k17[i]) != k by {
        assert(k17[i] == sc[26 + i]);
    }
}

/// Command name of each built-in action.
pub open spec fn default_name_map() -> Map<ActionType, Seq<char>> {
    Map::<ActionType, Seq<char>>::empty()
        .insert(ActionType::DrawLine, spec_to_uppercase("LINE"@))
        .insert(ActionType::DrawCircle, spec_to_uppercase("CIRCLE"@))
        .insert(ActionType::DrawArc, spec_to_uppercase("ARC"@))
        .insert(ActionType::DrawPolyline, spec_to_uppercase("POLYLINE"@))
        .insert(ActionType::DrawRectangle, spec_to_uppercase("RECTANGLE"@))
        .insert(ActionType::DrawPoint, spec_to_uppercase("POINT"@))
        .insert(ActionType::DrawText, spec_to_uppercase("TEXT"@))
        .insert(ActionType::DrawDimension, spec_to_uppercase("DIMENSION"@))
        .insert(ActionType::DrawDimensionRadius, spec_to_uppercase("DIMRADIUS"@))
        .insert(ActionType::DrawDimensionDiameter, spec_to_uppercase("DIMDIAMETER"@))
        .insert(ActionType::Move, spec_to_uppercase("MOVE"@))
        .insert(ActionType::Copy, spec_to_uppercase("COPY"@))
        .insert(ActionType::Rotate, spec_to_uppercase("ROTATE"@))
        .insert(ActionType::Scale, spec_to_uppercase("SCALE"@))
        .insert(ActionType::Mirror, spec_to_uppercase("MIRROR"@))
        .insert(ActionType::Erase, spec_to_uppercase("ERASE"@))
        .insert(ActionType::Select, spec_to_uppercase("SELECT"@))
}

/// Maps full command names, shortcuts and user aliases to actions.
#[derive(Debug, Clone)]
pub struct CommandRegistry {
    main_commands: Vec<(String, ActionType)>,
    short_commands: Vec<(String, ActionType)>,
    aliases: Vec<(String, String)>,
    action_to_command: Vec<(ActionType, String)>,
}

impl CommandRegistry {
    pub closed spec fn wf(self) -> bool {
        &&& unique_keys(self.main_commands@)
        &&& unique_keys(self.short_commands@)
        &&& unique_keys(self.aliases@)
        &&& unique_actions(self.action_to_command@)
    }

    /// Full command names and their actions.
    pub closed spec fn main_map(self) -> Map<Seq<char>, ActionType> {
        assoc_map(self.main_commands@)
    }

    /// Shortcuts and their actions.
    pub closed spec fn short_map(self) -> Map<Seq<char>, ActionType> {
        assoc_map(self.short_commands@)
    }

    /// User aliases and the full command each stands for.
    pub closed spec fn alias_map(self) -> Map<Seq<char>, Seq<char>> {
        assoc_map(self.aliases@).map_values(|c: String| c@)
    }

    /// Full command name of each registered action.
    pub closed spec fn name_map(self) -> Map<ActionType, Seq<char>> {
        action_map(self.action_to_command@)
    }

    /// The aliases after `add_alias`: an alias that names a full command, or
    /// one for a command that is not registered, leaves them unchanged.
    pub open spec fn alias_map_after_add(self, alias: Seq<char>, command: Seq<char>) -> Map<
        Seq<char>,
        Seq<char>,
    > {
        if !self.main_map().contains_key(spec_to_uppercase(alias)) && self.main_map().contains_key(
            spec_to_uppercase(command),
        ) {
            self.alias_map().insert(spec_to_uppercase(alias), spec_to_uppercase(command))
        } else {
            self.alias_map()
        }
    }

    /// What `lookup` finds for a name that is already upper-cased.
    pub open spec fn resolves(self, u: Seq<char>) -> Option<ActionType> {
        resolve(self.main_map(), self.short_map(), self.alias_map(), u)
    }

    /// An empty registry.
    fn empty() -> (r: Self)
        ensures
            r.wf(),
            r.main_map() == Map::<Seq<char>, ActionType>::empty(),
            r.short_map() == Map::<Seq<char>, ActionType>::empty(),
            r.alias_map() == Map::<Seq<char>, Seq<char>>::empty(),
            r.name_map() == Map::<ActionType, Seq<char>>::empty(),
    {
        let r = Self {
            main_commands: Vec::new(),
            short_commands: Vec::new(),
            aliases: Vec::new(),
            action_to_command: Vec::new(),
        };
        assert(r.main_map() =~= Map::<Seq<char>, ActionType>::empty());
        assert(r.short_map() =~= Map::<Seq<char>, ActionType>::empty());
        assert(r.alias_map() =~= Map::<Seq<char>, Seq<char>>::empty());
        assert(r.name_map() =~= Map::<ActionType, Seq<char>>::empty());
        r
    }

    /// A registry holding the built-in commands; each full command name in
    /// it is its own upper case and is not also a shortcut.
    pub fn new() -> (r: Self)
        ensures
            r.wf(),
            r.main_map() == default_main_map(),
            r.short_map() == default_short_map(),
            r.name_map() == default_name_map(),
            r.alias_map() == Map::<Seq<char>, Seq<char>>::empty(),
            forall|k: Seq<char>| #[trigger] r.main_map().contains_key(k) ==> spec_to_uppercase(k) == k,
            forall|k: Seq<char>| #[trigger] r.main_map().contains_key(k) ==> !r.short_map().contains_key(k),
    {
        let mut registry = Self::empty();
        registry.register_defaults();
        proof {
            let n = builtin_names();
            assert forall|k: Seq<char>| #[trigger] registry.main_map().contains_key(k) implies spec_to_uppercase(k) == k
                && !registry.short_map().contains_key(k) by {
                assert(spec_to_uppercase(n[0]) == n[0]);
                assert(spec_to_uppercase(n[1]) == n[1]);
                assert(spec_to_uppercase(n[2]) == n[2]);
                assert(spec_to_uppercase(n[3]) == n[3]);
                assert(spec_to_uppercase(n[4]) == n[4]);
                assert(spec_to_uppercase(n[5]) == n[5]);
                assert(spec_to_uppercase(n[6]) == n[6]);
                assert(spec_to_uppercase(n[7]) == n[7]);
                assert(spec_to_uppercase(n[8]) == n[8]);
                assert(spec_to_uppercase(n[9]) == n[9]);
                assert(spec_to_uppercase(n[10]) == n[10]);
                assert(spec_to_uppercase(n[11]) == n[11]);
                assert(spec_to_uppercase(n[12]) == n[12]);
                assert(spec_to_uppercase(n[13]) == n[13]);
                assert(spec_to_uppercase(n[14]) == n[14]);
                assert(spec_to_uppercase(n[15]) == n[15]);
                assert(spec_to_uppercase(n[16]) == n[16]);
                assert(builtin_names().contains(k));
                lemma_builtin_names_not_shortcuts(k);
            }
        }
        registry
    }

    /// Registers the built-in drawing, editing and selection commands.
    fn register_defaults(&mut self)
        requires
            old(self).wf(),
            old(self).main_map() == Map::<Seq<char>, ActionType>::empty(),
            old(self).short_map() == Map::<Seq<char>, ActionType>::empty(),
            old(self).name_map() == Map::<ActionType, Seq<char>>::empty(),
        ensures
            final(self).wf(),
            final(self).main_map() == default_main_map(),
            final(self).short_map() == default_short_map(),
            final(self).name_map() == default_name_map(),
            final(self).alias_map() == old(self).alias_map(),
            forall|i: int| 0 <= i < builtin_names().len() ==> #[trigger] spec_to_uppercase(builtin_names()[i])
                == builtin_names()[i],
            forall|i: int| 0 <= i < builtin_shortcuts().len() ==> #[trigger] spec_to_uppercase(builtin_shortcuts()[i])
                == builtin_shortcuts()[i],
    {
        let sc_line: [&str; 1] = ["L"];
        assert(str_views(sc_line@) =~= seq!["L"@]);
        self.register(ActionType::DrawLine, "LINE", &sc_line);
        proof {
            reveal_strlit("L");
            assert(sc_line@[0]@ == "L"@);
            assert("L"@.map_values(|c: char| ascii_upper(c)) =~= "L"@);
            reveal_strlit("LINE");
            assert("LINE"@.map_values(|c: char| ascii_upper(c)) =~= "LINE"@);
        }
        let sc_circle: [&str; 1] = ["C"];
        assert(str_views(sc_circle@) =~= seq!["C"@]);
        self.register(ActionType::DrawCircle, "CIRCLE", &sc_circle);
        proof {
            reveal_strlit("C");
            assert(sc_circle@[0]@ == "C"@);
            assert("C"@.map_values(|c: char| ascii_upper(c)) =~= "C"@);
            reveal_strlit("CIRCLE");
            assert("CIRCLE"@.map_values(|c: char| ascii_upper(c)) =~= "CIRCLE"@);
        }
        let sc_arc: [&str; 1] = ["A"];
        assert(str_views(sc_arc@) =~= seq!["A"@]);
        self.register(ActionType::DrawArc, "ARC", &sc_arc);
        proof {
            reveal_strlit("A");
            assert(sc_arc@[0]@ == "A"@);
            assert("A"@.map_values(|c: char| ascii_upper(c)) =~= "A"@);
            reveal_strlit("ARC");
            assert("ARC"@.map_values(|c: char| ascii_upper(c)) =~= "ARC"@);
        }
        let sc_polyline: [&str; 3] = ["PL", "P", "PLINE"];
        assert(str_views(sc_polyline@) =~= seq!["PL"@, "P"@, "PLINE"@]);
        self.register(ActionType::DrawPolyline, "POLYLINE", &sc_polyline);
        proof {
            reveal_strlit("PL");
            assert(sc_polyline@[0]@ == "PL"@);
            assert("PL"@.map_values(|c: char| ascii_upper(c)) =~= "PL"@);
            reveal_strlit("P");
            assert(sc_polyline@[1]@ == "P"@);
            assert("P"@.map_values(|c: char| ascii_upper(c)) =~= "P"@);
            reveal_strlit("PLINE");
            assert(sc_polyline@[2]@ == "PLINE"@);
            assert("PLINE"@.map_values(|c: char| ascii_upper(c)) =~= "PLINE"@);
            reveal_strlit("POLYLINE");
            assert("POLYLINE"@.map_values(|c: char| ascii_upper(c)) =~= "POLYLINE"@);
        }
        let sc_rectangle: [&str; 2] = ["REC", "R"];
        assert(str_views(sc_rectangle@) =~= seq!["REC"@, "R"@]);
        self.register(ActionType::DrawRectangle, "RECTANGLE", &sc_rectangle);
        proof {
            reveal_strlit("REC");
            assert(sc_rectangle@[0]@ == "REC"@);
            assert("REC"@.map_values(|c: char| ascii_upper(c)) =~= "REC"@);
            reveal_strlit("R");
            assert(sc_rectangle@[1]@ == "R"@);
            assert("R"@.map_values(|c: char| ascii_upper(c)) =~= "R"@);
            reveal_strlit("RECTANGLE");
            assert("RECTANGLE"@.map_values(|c: char| ascii_upper(c)) =~= "RECTANGLE"@);
        }
        let sc_point: [&str; 1] = ["."];
        assert(str_views(sc_point@) =~= seq!["."@]);
        self.register(ActionType::DrawPoint, "POINT", &sc_point);
        proof {
            reveal_strlit(".");
            assert(sc_point@[0]@ == "."@);
            assert("."@.map_values(|c: char| ascii_upper(c)) =~= "."@);
            reveal_strlit("POINT");
            assert("POINT"@.map_values(|c: char| ascii_upper(c)) =~= "POINT"@);
        }
        let sc_text: [&str; 3] = ["T", "DTEXT", "MTEXT"];
        assert(str_views(sc_text@) =~= seq!["T"@, "DTEXT"@, "MTEXT"@]);
        self.register(ActionType::DrawText, "TEXT", &sc_text);
        proof {
            reveal_strlit("T");
            assert(sc_text@[0]@ == "T"@);
            assert("T"@.map_values(|c: char| ascii_upper(c)) =~= "T"@);
            reveal_strlit("DTEXT");
            assert(sc_text@[1]@ == "DTEXT"@);
            assert("DTEXT"@.map_values(|c: char| ascii_upper(c)) =~= "DTEXT"@);
            reveal_strlit("MTEXT");
            assert(sc_text@[2]@ == "MTEXT"@);
            assert("MTEXT"@.map_values(|c: char| ascii_upper(c)) =~= "MTEXT"@);
            reveal_strlit("TEXT");
            assert("TEXT"@.map_values(|c: char| ascii_upper(c)) =~= "TEXT"@);
        }
        let sc_dimension: [&str; 4] = ["DIM", "D", "DIMLINEAR", "DIMALIGNED"];
        assert(str_views(sc_dimension@) =~= seq!["DIM"@, "D"@, "DIMLINEAR"@, "DIMALIGNED"@]);
        self.register(ActionType::DrawDimension, "DIMENSION", &sc_dimension);
        proof {
            reveal_strlit("DIM");
            assert(sc_dimension@[0]@ == "DIM"@);
            assert("DIM"@.map_values(|c: char| ascii_upper(c)) =~= "DIM"@);
            reveal_strlit("D");
            assert(sc_dimension@[1]@ == "D"@);
            assert("D"@.map_values(|c: char| ascii_upper(c)) =~= "D"@);
            reveal_strlit("DIMLINEAR");
            assert(sc_dimension@[2]@ == "DIMLINEAR"@);
            assert("DIMLINEAR"@.map_values(|c: char| ascii_upper(c)) =~= "DIMLINEAR"@);
            reveal_strlit("DIMALIGNED");
            assert(sc_dimension@[3]@ == "DIMALIGNED"@);
            assert("DIMALIGNED"@.map_values(|c: char| ascii_upper(c)) =~= "DIMALIGNED"@);
            reveal_strlit("DIMENSION");
            assert("DIMENSION"@.map_values(|c: char| ascii_upper(c)) =~= "DIMENSION"@);
        }
        let sc_dimradius: [&str; 1] = ["DRA"];
        assert(str_views(sc_dimradius@) =~= seq!["DRA"@]);
        self.register(ActionType::DrawDimensionRadius, "DIMRADIUS", &sc_dimradius);
        proof {
            reveal_strlit("DRA");
            assert(sc_dimradius@[0]@ == "DRA"@);
            assert("DRA"@.map_values(|c: char| ascii_upper(c)) =~= "DRA"@);
            reveal_strlit("DIMRADIUS");
            assert("DIMRADIUS"@.map_values(|c: char| ascii_upper(c)) =~= "DIMRADIUS"@);
        }
        let sc_dimdiameter: [&str; 1] = ["DDI"];
        assert(str_views(sc_dimdiameter@) =~= seq!["DDI"@]);
        self.register(ActionType::DrawDimensionDiameter, "DIMDIAMETER", &sc_dimdiameter);
        proof {
            reveal_strlit("DDI");
            assert(sc_dimdiameter@[0]@ == "DDI"@);
            assert("DDI"@.map_values(|c: char| ascii_upper(c)) =~= "DDI"@);
            reveal_strlit("DIMDIAMETER");
            assert("DIMDIAMETER"@.map_values(|c: char| ascii_upper(c)) =~= "DIMDIAMETER"@);
        }
        let sc_move: [&str; 1] = ["M"];
        assert(str_views(sc_move@) =~= seq!["M"@]);
        self.register(ActionType::Move, "MOVE", &sc_move);
        proof {
            reveal_strlit("M");
            assert(sc_move@[0]@ == "M"@);
            assert("M"@.map_values(|c: char| ascii_upper(c)) =~= "M"@);
            reveal_strlit("MOVE");
            assert("MOVE"@.map_values(|c: char| ascii_upper(c)) =~= "MOVE"@);
        }
        let sc_copy: [&str; 2] = ["CO", "CP"];
        assert(str_views(sc_copy@) =~= seq!["CO"@, "CP"@]);
        self.register(ActionType::Copy, "COPY", &sc_copy);
        proof {
            reveal_strlit("CO");
            assert(sc_copy@[0]@ == "CO"@);
            assert("CO"@.map_values(|c: char| ascii_upper(c)) =~= "CO"@);
            reveal_strlit("CP");
            assert(sc_copy@[1]@ == "CP"@);
            assert("CP"@.map_values(|c: char| ascii_upper(c)) =~= "CP"@);
            reveal_strlit("COPY");
            assert("COPY"@.map_values(|c: char| ascii_upper(c)) =~= "COPY"@);
        }
        let sc_rotate: [&str; 1] = ["RO"];
        assert(str_views(sc_rotate@) =~= seq!["RO"@]);
        self.register(ActionType::Rotate, "ROTATE", &sc_rotate);
        proof {
            reveal_strlit("RO");
            assert(sc_rotate@[0]@ == "RO"@);
            assert("RO"@.map_values(|c: char| ascii_upper(c)) =~= "RO"@);
            reveal_strlit("ROTATE");
            assert("ROTATE"@.map_values(|c: char| ascii_upper(c)) =~= "ROTATE"@);
        }
        let sc_scale: [&str; 1] = ["SC"];
        assert(str_views(sc_scale@) =~= seq!["SC"@]);
        self.register(ActionType::Scale, "SCALE", &sc_scale);
        proof {
            reveal_strlit("SC");
            assert(sc_scale@[0]@ == "SC"@);
            assert("SC"@.map_values(|c: char| ascii_upper(c)) =~= "SC"@);
            reveal_strlit("SCALE");
            assert("SCALE"@.map_values(|c: char| ascii_upper(c)) =~= "SCALE"@);
        }
        let sc_mirror: [&str; 1] = ["MI"];
        assert(str_views(sc_mirror@) =~= seq!["MI"@]);
        self.register(ActionType::Mirror, "MIRROR", &sc_mirror);
        proof {
            reveal_strlit("MI");
            assert(sc_mirror@[0]@ == "MI"@);
            assert("MI"@.map_values(|c: char| ascii_upper(c)) =~= "MI"@);
            reveal_strlit("MIRROR");
            assert("MIRROR"@.map_values(|c: char| ascii_upper(c)) =~= "MIRROR"@);
        }
        let sc_erase: [&str; 2] = ["E", "DELETE"];
        assert(str_views(sc_erase@) =~= seq!["E"@, "DELETE"@]);
        self.register(ActionType::Erase, "ERASE", &sc_erase);
        proof {
            reveal_strlit("E");
            assert(sc_erase@[0]@ == "E"@);
            assert("E"@.map_values(|c: char| ascii_upper(c)) =~= "E"@);
            reveal_strlit("DELETE");
            assert(sc_erase@[1]@ == "DELETE"@);
            assert("DELETE"@.map_values(|c: char| ascii_upper(c)) =~= "DELETE"@);
            reveal_strlit("ERASE");
            assert("ERASE"@.map_values(|c: char| ascii_upper(c)) =~= "ERASE"@);
        }
        let sc_select: [&str; 1] = ["SEL"];
        assert(str_views(sc_select@) =~= seq!["SEL"@]);
        self.register(ActionType::Select, "SELECT", &sc_select);
        proof {
            reveal_strlit("SEL");
            assert(sc_select@[0]@ == "SEL"@);
            assert("SEL"@.map_values(|c: char| ascii_upper(c)) =~= "SEL"@);
            reveal_strlit("SELECT");
            assert("SELECT"@.map_values(|c: char| ascii_upper(c)) =~= "SELECT"@);
        }
    }

    /// Registers a full command name and its shortcuts for an action; the
    /// name becomes the action's command name.
    pub fn register(&mut self, action: ActionType, full_cmd: &str, shortcuts: &[&str])
        requires
            old(self).wf(),
        ensures
            final(self).wf(),
            final(self).main_map() == old(self).main_map().insert(
                spec_to_uppercase(full_cmd@),
                action,
            ),
            final(self).name_map() == old(self).name_map().insert(
                action,
                spec_to_uppercase(full_cmd@),
            ),
            final(self).short_map() == with_shortcuts(
                old(self).short_map(),
                str_views(shortcuts@),
                action,
            ),
            final(self).alias_map() == old(self).alias_map(),
            is_ascii_text(full_cmd@) ==> spec_to_uppercase(full_cmd@) == full_cmd@.map_values(|c: char| ascii_upper(c)),
            forall|j: int|
                0 <= j < shortcuts@.len() && is_ascii_text(#[trigger] shortcuts@[j]@) ==> spec_to_uppercase(
                    shortcuts@[j]@,
                ) == shortcuts@[j]@.map_values(|c: char| ascii_upper(c)),
    {
        let full_cmd_upper = to_uppercase(full_cmd);
        assoc_insert(&mut self.main_commands, full_cmd_upper.clone(), action);
        action_insert(&mut self.action_to_command, action, full_cmd_upper);
        let ghost start = self.short_map();
        let ghost mid = *self;
        let mut i: usize = 0;
        while i < shortcuts.len()
            invariant
                i <= shortcuts@.len(),
                unique_keys(self.short_commands@),
                self.main_commands == mid.main_commands,
                self.aliases == mid.aliases,
                self.action_to_command == mid.action_to_command,
                mid.wf(),
                self.short_map() == with_shortcuts(
                    start,
                    str_views(shortcuts@).take(i as int),
                    action,
                ),
                forall|j: int|
                    0 <= j < i && is_ascii_text(#[trigger] shortcuts@[j]@) ==> spec_to_uppercase(shortcuts@[j]@)
                        == shortcuts@[j]@.map_values(|c: char| ascii_upper(c)),
            decreases shortcuts@.len() - i,
        {
            let shortcut_upper = to_uppercase(shortcuts[i]);
            assoc_insert(&mut self.short_commands, shortcut_upper, action);
            proof {
                let ks = str_views(shortcuts@);
                assert(ks.take(i + 1) =~= ks.take(i as int).push(shortcuts@[i as int]@));
                lemma_with_shortcuts_push(start, ks.take(i as int), shortcuts@[i as int]@, action);
            }
            i = i + 1;
        }
        assert(str_views(shortcuts@).take(shortcuts@.len() as int) =~= str_views(shortcuts@));
    }

    /// Every full command name that starts with the prefix, ignoring case,
    /// in ascending order.
    pub fn complete(&self, prefix: &str) -> (r: Vec<String>)
        requires
            self.wf(),
        ensures
            sorted_strictly(string_views(r@)),
            forall|k: Seq<char>|
                #![trigger string_views(r@).contains(k)]
                string_views(r@).contains(k) <==> (self.main_map().contains_key(k) && has_prefix(
                    k,
                    spec_to_uppercase(prefix@),
                )),
    {
        let prefix_upper = to_uppercase(prefix);
        let pc = chars_of(prefix_upper.as_str());
        let mut results: Vec<String> = Vec::new();
        let mut i: usize = 0;
        while i < self.main_commands.len()
            invariant
                self.wf(),
                i <= self.main_commands@.len(),
                pc@ == spec_to_uppercase(prefix@),
                sorted_strictly(string_views(results@)),
                forall|k: Seq<char>|
                    #![trigger string_views(results@).contains(k)]
                    string_views(results@).contains(k) <==> (exists|j: int|
                        0 <= j < i && #[trigger] self.main_commands@[j].0@ == k && has_prefix(
                            k,
                            pc@,
                        )),
            decreases self.main_commands@.len() - i,
        {
            let key = &self.main_commands[i].0;
            let ghost before = string_views(results@);
            if starts_with(chars_of(key.as_str()).as_slice(), pc.as_slice()) {
                proof {
                    if before.contains(key@) {
                        let j = choose|j: int|
                            0 <= j < i && #[trigger] self.main_commands@[j].0@ == key@ && has_prefix(
                                key@,
                                pc@,
                            );
                        assert(self.main_commands@[j].0@ == self.main_commands@[i as int].0@);
                    }
                }
                insert_sorted(&mut results, key.clone());
            }
            proof {
                let after = string_views(results@);
                assert forall|k: Seq<char>|
                    #![trigger after.contains(k)]
                    after.contains(k) <==> (exists|j: int|
                        0 <= j < i + 1 && #[trigger] self.main_commands@[j].0@ == k && has_prefix(
                            k,
                            pc@,
                        )) by {
                    if k == self.main_commands@[i as int].0@ && has_prefix(k, pc@) {
                        assert(after.contains(k));
                    }
                    if before.contains(k) {
                        let j = choose|j: int|
                            0 <= j < i && #[trigger] self.main_commands@[j].0@ == k && has_prefix(
                                k,
                                pc@,
                            );
                    }
                }
            }
            i = i + 1;
        }
        proof {
            let rv = string_views(results@);
            assert forall|k: Seq<char>|
                #![trigger rv.contains(k)]
                rv.contains(k) <==> (self.main_map().contains_key(k) && has_prefix(
                    k,
                    spec_to_uppercase(prefix@),
                )) by {
                if self.main_map().contains_key(k) {
                    let j = choose|j: int|
                        0 <= j < self.main_commands@.len() && #[trigger] self.main_commands@[j].0@
                            == k;
                }
            }
        }
        results
    }

    /// Every full command name with its action.
    pub fn get_all_commands(&self) -> (r: Vec<(&str, ActionType)>)
        requires
            self.wf(),
        ensures
            r@.len() == self.main_map().len(),
            forall|i: int|
                0 <= i < r@.len() ==> self.main_map().contains_key(#[trigger] r@[i].0@)
                    && self.main_map()[r@[i].0@] == r@[i].1,
            forall|k: Seq<char>|
                self.main_map().contains_key(k) ==> exists|i: int|
                    0 <= i < r@.len() && #[trigger] r@[i].0@ == k,
            forall|i: int, j: int| 0 <= i < j < r@.len() ==> #[trigger] r@[i].0@ != #[trigger] r@[j].0@,
            forall|i: int| 0 <= i < r@.len() ==> self.resolves(#[trigger] r@[i].0@) == Some(r@[i].1),
    {
        all_entries(&self.main_commands)
    }

    /// Every shortcut with its action.
    pub fn get_all_shortcuts(&self) -> (r: Vec<(&str, ActionType)>)
        requires
            self.wf(),
        ensures
            r@.len() == self.short_map().len(),
            forall|i: int|
                0 <= i < r@.len() ==> self.short_map().contains_key(#[trigger] r@[i].0@)
                    && self.short_map()[r@[i].0@] == r@[i].1,
            forall|k: Seq<char>|
                self.short_map().contains_key(k) ==> exists|i: int|
                    0 <= i < r@.len() && #[trigger] r@[i].0@ == k,
    {
        all_entries(&self.short_commands)
    }

    /// Finds the action a name stands for, ignoring case.
    pub fn lookup(&self, input: &str) -> (r: Option<ActionType>)
        requires
            self.wf(),
        ensures
            r == self.resolves(spec_to_uppercase(input@)),
    {
        let input_upper = to_uppercase(input);
        if let Some(action) = assoc_get(&self.main_commands, &input_upper) {
            return Some(action);
        }
        if let Some(action) = assoc_get(&self.short_commands, &input_upper) {
            return Some(action);
        }
        match find_key(&self.aliases, &input_upper) {
            Some(i) => {
                proof {
                    lemma_assoc_at(self.aliases@, i as int);
                }
                assoc_get(&self.main_commands, &self.aliases[i].1)
            },
            None => {
                assert(!self.alias_map().contains_key(input_upper@));
                None
            },
        }
    }

    /// Full command name of an action, if registered.
    pub fn get_command_name(&self, action: ActionType) -> (r: Option<&str>)
        requires
            self.wf(),
        ensures
            match r {
                Some(s) => self.name_map().contains_key(action) && s@ == self.name_map()[action],
                None => !self.name_map().contains_key(action),
            },
    {
        let mut i: usize = 0;
        while i < self.action_to_command.len()
            invariant
                self.wf(),
                i <= self.action_to_command@.len(),
                forall|j: int| 0 <= j < i ==> self.action_to_command@[j].0 != action,
            decreases self.action_to_command@.len() - i,
        {
            if self.action_to_command[i].0 == action {
                proof {
                    let s = self.action_to_command@;
                    assert(s[i as int].0 == action);
                    let j = choose|j: int| 0 <= j < s.len() && #[trigger] s[j].0 == action;
                    assert(s[j].0 == s[i as int].0);
                }
                return Some(self.action_to_command[i].1.as_str());
            }
            i = i + 1;
        }
        None
    }

    /// Adds a user alias for a registered full command; an alias that is
    /// itself a full command name, or a command that is not registered, is
    /// ignored.
    pub fn add_alias(&mut self, alias: &str, command: &str)
        requires
            old(self).wf(),
        ensures
            final(self).wf(),
            final(self).main_map() == old(self).main_map(),
            final(self).short_map() == old(self).short_map(),
            final(self).name_map() == old(self).name_map(),
            final(self).alias_map() == old(self).alias_map_after_add(alias@, command@),
    {
        let alias_upper = to_uppercase(alias);
        let command_upper = to_uppercase(command);
        if assoc_has(&self.main_commands, &alias_upper) {
            return ;
        }
        if assoc_has(&self.main_commands, &command_upper) {
            let ghost cv = command_upper@;
            let ghost before = assoc_map(self.aliases@);
            assoc_insert(&mut self.aliases, alias_upper, command_upper);
            proof {
                assert(self.alias_map() =~= before.map_values(|c: String| c@).insert(
                    spec_to_uppercase(alias@),
                    cv,
                ));
            }
        }
    }

    /// Removes a user alias.
    pub fn remove_alias(&mut self, alias: &str)
        requires
            old(self).wf(),
        ensures
            final(self).wf(),
            final(self).main_map() == old(self).main_map(),
            final(self).short_map() == old(self).short_map(),
            final(self).name_map() == old(self).name_map(),
            final(self).alias_map() == old(self).alias_map().remove(spec_to_uppercase(alias@)),
    {
        let alias_upper = to_uppercase(alias);
        let ghost before = assoc_map(self.aliases@);
        assoc_remove(&mut self.aliases, &alias_upper);
        assert(self.alias_map() =~= before.map_values(|c: String| c@).remove(alias_upper@));
    }
}

/// After registering a command, its full name finds its action.
pub proof fn lemma_register_then_lookup(
    before: CommandRegistry,
    after: CommandRegistry,
    action: ActionType,
    full_cmd: Seq<char>,
)
    requires
        after.main_map() == before.main_map().insert(spec_to_uppercase(full_cmd), action),
    ensures
        after.resolves(spec_to_uppercase(full_cmd)) == Some(action),
{
}

/// An alias for a registered command that is neither a full command name nor
/// a shortcut finds that command's action.
pub proof fn lemma_alias_finds_command(r: CommandRegistry, alias: Seq<char>, command: Seq<char>)
    requires
        r.main_map().contains_key(spec_to_uppercase(command)),
        !r.main_map().contains_key(spec_to_uppercase(alias)),
        !r.short_map().contains_key(spec_to_uppercase(alias)),
    ensures
        resolve(
            r.main_map(),
            r.short_map(),
            r.alias_map_after_add(alias, command),
            spec_to_uppercase(alias),
        ) == Some(r.main_map()[spec_to_uppercase(command)]),
{
}

/// Removing an alias that was just added restores the aliases as they were,
/// when the name was not an alias before.
pub proof fn lemma_remove_undoes_add(r: CommandRegistry, alias: Seq<char>, command: Seq<char>)
    requires
        !r.alias_map().contains_key(spec_to_uppercase(alias)),
    ensures
        r.alias_map_after_add(alias, command).remove(spec_to_uppercase(alias)) == r.alias_map(),
{
    assert(r.alias_map_after_add(alias, command).remove(spec_to_uppercase(alias)) =~= r.alias_map());
}

/// A name that is not an alias, full command name or shortcut finds nothing.
pub proof fn lemma_unknown_name_finds_nothing(r: CommandRegistry, u: Seq<char>)
    requires
        !r.main_map().contains_key(u),
        !r.short_map().contains_key(u),
        !r.alias_map().contains_key(u),
    ensures
        r.resolves(u) == None::<ActionType>,
{
}

impl Default for CommandRegistry {
    fn default() -> (r: Self)
        ensures
            r.wf(),
            r.main_map() == default_main_map(),
            r.short_map() == default_short_map(),
            r.name_map() == default_name_map(),
            r.alias_map() == Map::<Seq<char>, Seq<char>>::empty(),
    {
        Self::new()
    }
}

} // verus!

//! The layouts and viewports of a DXF text.
//!
//! Objects of a section are found by their `0`/kind pair; the pairs after
//! it, up to the next group code 0, are the object's attributes. Numbers
//! that are floating point are handed on as the text of their value; the
//! caller reads them.

use vstd::prelude::*;
use crate::dxf_raw::{i32_of_text, lines_of_pairs, pair_lines, pair_matches, pair_views, DxfPair, DxfRawParser, DxfWriter};
use crate::text::{chars_eq, chars_of, hex_text, int_text, int_to_chars, string_of, trim_chars, trimmed};

verus! {

broadcast use vstd::string::group_string_axioms;

/// The first pair at or after `i` with group code 0, or the end.
pub open spec fn next_zero(ps: Seq<(i32, Seq<char>)>, i: int) -> int
    decreases ps.len() - i,
{
    if i >= ps.len() {
        ps.len() as int
    } else if ps[i].0 == 0 {
        i
    } else {
        next_zero(ps, i + 1)
    }
}

proof fn lemma_next_zero(ps: Seq<(i32, Seq<char>)>, i: int, j: int)
    requires
        0 <= i <= j <= ps.len(),
        forall|k: int| i <= k < j ==> (#[trigger] ps[k]).0 != 0,
        j == ps.len() || ps[j].0 == 0,
    ensures
        next_zero(ps, i) == j,
    decreases j - i,
{
    if i < j {
        lemma_next_zero(ps, i + 1, j);
    }
}

/// The next group code 0 is not before where the search starts.
pub proof fn lemma_next_zero_after(ps: Seq<(i32, Seq<char>)>, i: int)
    ensures
        0 <= i <= ps.len() ==> i <= next_zero(ps, i) <= ps.len(),
    decreases ps.len() - i,
{
    if i < ps.len() && ps[i].0 != 0 {
        lemma_next_zero_after(ps, i + 1);
    }
}

/// The attribute pairs of the objects of a kind met from pair `i` on,
/// up to the end of the section.
pub open spec fn groups_from(ps: Seq<(i32, Seq<char>)>, i: int, kind: Seq<char>) -> Seq<Seq<(i32, Seq<char>)>>
    decreases ps.len() - i,
{
    if i < 0 || i >= ps.len() {
        Seq::empty()
    } else if pair_matches(ps[i], 0, Some("ENDSEC"@)) {
        Seq::empty()
    } else if pair_matches(ps[i], 0, Some(kind)) {
        let j = next_zero(ps, i + 1);
        proof {
            lemma_next_zero_after(ps, i + 1);
        }
        seq![ps.subrange(i + 1, j)] + groups_from(ps, j, kind)
    } else {
        groups_from(ps, i + 1, kind)
    }
}

/// The first pair at or after `i` that has the code and trimmed value.
pub open spec fn first_match(ps: Seq<(i32, Seq<char>)>, i: int, code: i32, value: Seq<char>) -> Option<int>
    decreases ps.len() - i,
{
    if i < 0 || i >= ps.len() {
        None
    } else if pair_matches(ps[i], code, Some(value)) {
        Some(i)
    } else {
        first_match(ps, i + 1, code, value)
    }
}

proof fn lemma_first_match(ps: Seq<(i32, Seq<char>)>, i: int, code: i32, value: Seq<char>)
    requires
        0 <= i,
    ensures
        match first_match(ps, i, code, value) {
            Some(m) => i <= m < ps.len() && pair_matches(ps[m], code, Some(value)) && forall|k: int|
                i <= k < m ==> !pair_matches(#[trigger] ps[k], code, Some(value)),
            None => forall|k: int| i <= k < ps.len() ==> !pair_matches(#[trigger] ps[k], code, Some(value)),
        },
    decreases ps.len() - i,
{
    if i < ps.len() && !pair_matches(ps[i], code, Some(value)) {
        lemma_first_match(ps, i + 1, code, value);
    }
}

/// The attribute pairs of the objects of a kind in the first section of a
/// name; none when there is no such section.
pub open spec fn section_groups(ps: Seq<(i32, Seq<char>)>, section: Seq<char>, kind: Seq<char>) -> Seq<
    Seq<(i32, Seq<char>)>,
> {
    match first_match(ps, 0, 2, section) {
        Some(m) => groups_from(ps, m + 1, kind),
        None => Seq::empty(),
    }
}

/// The pair views of groups of pairs.
pub open spec fn group_views(gs: Seq<Vec<DxfPair>>) -> Seq<Seq<(i32, Seq<char>)>> {
    gs.map_values(|g: Vec<DxfPair>| pair_views(g@))
}

/// The attribute pairs of each object of a kind in a section, in order.
/// The cursor ends after the section's last object, or where the search
/// stopped.
pub fn object_groups(parser: &mut DxfRawParser, section: &str, kind: &str) -> (gs: Vec<Vec<DxfPair>>)
    requires
        old(parser).wf(),
    ensures
        final(parser).wf(),
        final(parser).pairs() == old(parser).pairs(),
        group_views(gs@) == section_groups(old(parser).pairs(), section@, kind@),
{
    let ghost ps = parser.pairs();
    let mut groups: Vec<Vec<DxfPair>> = Vec::new();
    parser.rewind();
    proof {
        lemma_first_match(ps, 0, 2, section@);
    }
    if !parser.skip_to(2, Some(section)) {
        assert(group_views(groups@) =~= Seq::<Seq<(i32, Seq<char>)>>::empty());
        return groups;
    }
    let ghost m = parser.pos() - 1;
    proof {
        assert(first_match(ps, 0, 2, section@) == Some(m)) by {
            lemma_first_match(ps, 0, 2, section@);
            match first_match(ps, 0, 2, section@) {
                Some(k) => {
                    if k < m {
                        assert(!pair_matches(ps[k], 2, Some(section@)));
                    } else if m < k {
                        assert(!pair_matches(ps[m], 2, Some(section@)));
                    }
                },
                None => {
                    assert(!pair_matches(ps[m], 2, Some(section@)));
                },
            }
        }
        assert(group_views(groups@) + groups_from(ps, parser.pos(), kind@) =~= section_groups(ps, section@, kind@));
    }
    let endsec = chars_of("ENDSEC");
    let wanted = chars_of(kind);
    loop
        invariant_except_break
            group_views(groups@) + groups_from(ps, parser.pos(), kind@) == section_groups(ps, section@, kind@),
        invariant
            parser.wf(),
            parser.pairs() == ps,
            endsec@ == "ENDSEC"@,
            wanted@ == kind@,
        ensures
            group_views(groups@) == section_groups(ps, section@, kind@),
        decreases ps.len() - parser.pos(),
    {
        let ghost i = parser.pos();
        proof {
            parser.lemma_pos_in_range();
        }
        let (code, value) = match parser.advance() {
            Some(p) => (p.code, trim_chars(chars_of(p.value.as_str()).as_slice())),
            None => {
                assert(group_views(groups@) =~= group_views(groups@) + groups_from(ps, i, kind@));
                break;
            },
        };
        assert(value@ == trimmed(ps[i].1) && code == ps[i].0);
        if code == 0 && chars_eq(value.as_slice(), endsec.as_slice()) {
            assert(group_views(groups@) =~= group_views(groups@) + groups_from(ps, i, kind@));
            break;
        }
        if code == 0 && chars_eq(value.as_slice(), wanted.as_slice()) {
            let attrs = parser.read_until_zero();
            proof {
                parser.lemma_pos_in_range();
                lemma_next_zero(ps, i + 1, parser.pos());
                assert(group_views(groups@.push(attrs)) =~= group_views(groups@).push(pair_views(attrs@)));
                assert(group_views(groups@).push(pair_views(attrs@)) + groups_from(ps, parser.pos(), kind@)
                    =~= group_views(groups@) + (seq![ps.subrange(i + 1, parser.pos())] + groups_from(ps, parser.pos(), kind@)));
            }
            groups.push(attrs);
        }
    }
    groups
}


/// The value of the last pair with a group code.
pub open spec fn last_value(ps: Seq<(i32, Seq<char>)>, code: i32) -> Option<Seq<char>>
    decreases ps.len(),
{
    if ps.len() == 0 {
        None
    } else if ps.last().0 == code {
        Some(ps.last().1)
    } else {
        last_value(ps.drop_last(), code)
    }
}

/// A value, trimmed, or a default text.
pub open spec fn text_or(v: Option<Seq<char>>, d: Seq<char>) -> Seq<char> {
    match v {
        Some(t) => trimmed(t),
        None => d,
    }
}

/// A value read as an `i32` after trimming, or a default number.
pub open spec fn int_or(v: Option<Seq<char>>, d: i32) -> i32 {
    match v {
        Some(t) => match i32_of_text(trimmed(t)) {
            Some(x) => x,
            None => d,
        },
        None => d,
    }
}

/// The text of an optional string.
pub open spec fn opt_string(o: Option<String>) -> Option<Seq<char>> {
    match o {
        Some(s) => Some(s@),
        None => None,
    }
}

proof fn lemma_last_value_step(ps: Seq<(i32, Seq<char>)>, i: int, code: i32)
    requires
        0 <= i < ps.len(),
    ensures
        last_value(ps.take(i + 1), code) == if ps[i].0 == code {
            Some(ps[i].1)
        } else {
            last_value(ps.take(i), code)
        },
{
    assert(ps.take(i + 1).drop_last() =~= ps.take(i));
    assert(ps.take(i + 1).last() == ps[i]);
}

/// The trimmed value of a pair.
fn trimmed_value(p: &DxfPair) -> (s: String)
    ensures
        s@ == trimmed(p@.1),
{
    let t = trim_chars(chars_of(p.value.as_str()).as_slice());
    string_of(t.as_slice())
}

/// The value of a pair as it stands.
fn raw_value(p: &DxfPair) -> (s: Option<String>)
    ensures
        opt_string(s) == Some(p@.1),
{
    Some(string_of(chars_of(p.value.as_str()).as_slice()))
}

/// A paper-space layout as the text gives it; its paper size and margins
/// are the texts of their values.
#[derive(Debug, Clone)]
pub struct LayoutRecord {
    pub name: String,
    pub handle: String,
    pub block_record_handle: String,
    pub paper_width: Option<String>,
    pub paper_height: Option<String>,
    pub left_margin: Option<String>,
    pub bottom_margin: Option<String>,
    pub right_margin: Option<String>,
    pub top_margin: Option<String>,
    pub is_model_space: bool,
    pub tab_order: i32,
}

/// The layout the attribute pairs describe: for each attribute, the last
/// pair with its code wins.
pub open spec fn layout_of(r: LayoutRecord, ps: Seq<(i32, Seq<char>)>) -> bool {
    &&& r.handle@ == text_or(last_value(ps, 5), Seq::empty())
    &&& r.name@ == text_or(last_value(ps, 1), "Layout1"@)
    &&& r.block_record_handle@ == text_or(last_value(ps, 330), Seq::empty())
    &&& opt_string(r.paper_width) == last_value(ps, 44)
    &&& opt_string(r.paper_height) == last_value(ps, 45)
    &&& opt_string(r.left_margin) == last_value(ps, 40)
    &&& opt_string(r.bottom_margin) == last_value(ps, 41)
    &&& opt_string(r.right_margin) == last_value(ps, 42)
    &&& opt_string(r.top_margin) == last_value(ps, 43)
    &&& r.tab_order == int_or(last_value(ps, 71), 1)
    &&& r.is_model_space == (r.name@ == "Model"@)
}

/// The layout that attribute pairs describe.
pub fn layout_record(pairs: &[DxfPair]) -> (r: LayoutRecord)
    ensures
        layout_of(r, pair_views(pairs@)),
{
    let ghost ps = pair_views(pairs@);
    let mut r = LayoutRecord {
        name: string_of(chars_of("Layout1").as_slice()),
        handle: String::new(),
        block_record_handle: String::new(),
        paper_width: None,
        paper_height: None,
        left_margin: None,
        bottom_margin: None,
        right_margin: None,
        top_margin: None,
        is_model_space: false,
        tab_order: 1,
    };
    let mut i: usize = 0;
    while i < pairs.len()
        invariant
            i <= pairs@.len(),
            ps == pair_views(pairs@),
            r.handle@ == text_or(last_value(ps.take(i as int), 5), Seq::empty()),
            r.name@ == text_or(last_value(ps.take(i as int), 1), "Layout1"@),
            r.block_record_handle@ == text_or(last_value(ps.take(i as int), 330), Seq::empty()),
            opt_string(r.paper_width) == last_value(ps.take(i as int), 44),
            opt_string(r.paper_height) == last_value(ps.take(i as int), 45),
            opt_string(r.left_margin) == last_value(ps.take(i as int), 40),
            opt_string(r.bottom_margin) == last_value(ps.take(i as int), 41),
            opt_string(r.right_margin) == last_value(ps.take(i as int), 42),
            opt_string(r.top_margin) == last_value(ps.take(i as int), 43),
            r.tab_order == int_or(last_value(ps.take(i as int), 71), 1),
        decreases pairs@.len() - i,
    {
        let p = &pairs[i];
        proof {
            assert(ps[i as int] == p@);
            lemma_last_value_step(ps, i as int, 5);
            lemma_last_value_step(ps, i as int, 1);
            lemma_last_value_step(ps, i as int, 330);
            lemma_last_value_step(ps, i as int, 44);
            lemma_last_value_step(ps, i as int, 45);
            lemma_last_value_step(ps, i as int, 40);
            lemma_last_value_step(ps, i as int, 41);
            lemma_last_value_step(ps, i as int, 42);
            lemma_last_value_step(ps, i as int, 43);
            lemma_last_value_step(ps, i as int, 71);
        }
        if p.code == 5 {
            r.handle = trimmed_value(p);
        } else if p.code == 1 {
            r.name = trimmed_value(p);
        } else if p.code == 330 {
            r.block_record_handle = trimmed_value(p);
        } else if p.code == 44 {
            r.paper_width = raw_value(p);
        } else if p.code == 45 {
            r.paper_height = raw_value(p);
        } else if p.code == 40 {
            r.left_margin = raw_value(p);
        } else if p.code == 41 {
            r.bottom_margin = raw_value(p);
        } else if p.code == 42 {
            r.right_margin = raw_value(p);
        } else if p.code == 43 {
            r.top_margin = raw_value(p);
        } else if p.code == 71 {
            r.tab_order = match p.as_i32() {
                Some(t) => t,
                None => 1,
            };
        }
        i = i + 1;
    }
    proof {
        assert(ps.take(ps.len() as int) =~= ps);
    }
    let name = chars_of(r.name.as_str());
    let model = chars_of("Model");
    r.is_model_space = chars_eq(name.as_slice(), model.as_slice());
    r
}

/// Records in an order sorted by a key, ties in the order of their
/// sources: `p[k]` is the source of record `k`.
pub open spec fn stable_order(keys: Seq<i32>, p: Seq<int>, n: int) -> bool {
    &&& keys.len() == n
    &&& p.len() == n
    &&& p.no_duplicates()
    &&& forall|k: int| 0 <= k < n ==> 0 <= #[trigger] p[k] < n
    &&& forall|k: int, l: int|
        0 <= k < l < n ==> #[trigger] keys[k] < #[trigger] keys[l] || (keys[k] == keys[l] && p[k] < p[l])
}

/// The tab orders of layouts.
pub open spec fn tab_orders(rs: Seq<LayoutRecord>) -> Seq<i32> {
    rs.map_values(|r: LayoutRecord| r.tab_order)
}

/// Layouts described by groups of pairs, sorted by tab order: record `k`
/// describes group `p[k]`, and records with equal tab orders keep the
/// order of their groups.
pub open spec fn sorted_layouts(rs: Seq<LayoutRecord>, p: Seq<int>, gs: Seq<Seq<(i32, Seq<char>)>>) -> bool {
    &&& stable_order(tab_orders(rs), p, gs.len() as int)
    &&& forall|k: int| 0 <= k < rs.len() ==> layout_of(#[trigger] rs[k], gs[p[k]])
}

/// The layouts of the OBJECTS section, by tab order; layouts with the same
/// tab order keep the order of the text.
pub fn layouts(parser: &mut DxfRawParser) -> (r: Vec<LayoutRecord>)
    requires
        old(parser).wf(),
    ensures
        final(parser).wf(),
        final(parser).pairs() == old(parser).pairs(),
        exists|p: Seq<int>| #[trigger] sorted_layouts(r@, p, section_groups(old(parser).pairs(), "OBJECTS"@, "LAYOUT"@)),
{
    let groups = object_groups(parser, "OBJECTS", "LAYOUT");
    let ghost gs = group_views(groups@);
    let mut out: Vec<LayoutRecord> = Vec::new();
    let ghost mut p: Seq<int> = Seq::empty();
    let mut i: usize = 0;
    while i < groups.len()
        invariant
            i <= groups@.len(),
            gs == group_views(groups@),
            out@.len() == i,
            p.len() == i,
            p.no_duplicates(),
            forall|k: int| 0 <= k < i ==> 0 <= #[trigger] p[k] < i,
            forall|k: int| 0 <= k < i ==> layout_of(#[trigger] out@[k], gs[p[k]]),
            forall|k: int, l: int|
                0 <= k < l < i ==> #[trigger] out@[k].tab_order < #[trigger] out@[l].tab_order || (out@[k].tab_order
                    == out@[l].tab_order && p[k] < p[l]),
        decreases groups@.len() - i,
    {
        let rec = layout_record(groups[i].as_slice());
        assert(pair_views(groups@[i as int]@) == gs[i as int]);
        let key = rec.tab_order;
        let mut pos: usize = 0;
        while pos < out.len() && out[pos].tab_order <= key
            invariant
                pos <= out@.len(),
                forall|k: int| 0 <= k < pos ==> (#[trigger] out@[k]).tab_order <= key,
            decreases out@.len() - pos,
        {
            pos = pos + 1;
        }
        let ghost before = out@;
        let ghost p0 = p;
        out.insert(pos, rec);
        proof {
            p = p.insert(pos as int, i as int);
            assert forall|k: int| 0 <= k < i + 1 implies 0 <= #[trigger] p[k] < i + 1 by {
                if k > pos {
                    assert(p[k] == p0[k - 1]);
                }
            }
            assert forall|k: int| 0 <= k < i + 1 implies layout_of(#[trigger] out@[k], gs[p[k]]) by {
                if k > pos {
                    assert(out@[k] == before[k - 1] && p[k] == p0[k - 1]);
                }
            }
            assert(p.no_duplicates()) by {
                assert forall|k: int, l: int| 0 <= k < i + 1 && 0 <= l < i + 1 && k != l implies p[k] != p[l] by {
                    if k != pos && l != pos {
                        let k0 = if k < pos { k } else { k - 1 };
                        let l0 = if l < pos { l } else { l - 1 };
                        assert(p[k] == p0[k0] && p[l] == p0[l0]);
                    } else if k == pos {
                        let l0 = if l < pos { l } else { l - 1 };
                        assert(p[l] == p0[l0]);
                    } else {
                        let k0 = if k < pos { k } else { k - 1 };
                        assert(p[k] == p0[k0]);
                    }
                }
            }
            assert forall|k: int, l: int|
                0 <= k < l < i + 1 implies #[trigger] out@[k].tab_order < #[trigger] out@[l].tab_order || (
                out@[k].tab_order == out@[l].tab_order && p[k] < p[l]) by {
                if pos < before.len() {
                    assert(before[pos as int].tab_order > key);
                }
                if k != pos && l != pos {
                    let k0 = if k < pos { k } else { k - 1 };
                    let l0 = if l < pos { l } else { l - 1 };
                    assert(out@[k] == before[k0] && out@[l] == before[l0]);
                    assert(p[k] == p0[k0] && p[l] == p0[l0]);
                } else if k == pos {
                    assert(out@[l] == before[l - 1]);
                    assert(before[pos as int].tab_order < before[l - 1].tab_order || before[pos as int].tab_order
                        == before[l - 1].tab_order || pos == l - 1);
                } else {
                    assert(out@[k] == before[k]);
                    assert(p[k] == p0[k]);
                }
            }
        }
        i = i + 1;
    }
    proof {
        assert(tab_orders(out@).len() == gs.len());
        assert forall|k: int, l: int|
            0 <= k < l < gs.len() implies #[trigger] tab_orders(out@)[k] < #[trigger] tab_orders(out@)[l] || (tab_orders(
            out@,
        )[k] == tab_orders(out@)[l] && p[k] < p[l]) by {
            assert(out@[k].tab_order < out@[l].tab_order || (out@[k].tab_order == out@[l].tab_order && p[k] < p[l]));
        }
        assert(stable_order(tab_orders(out@), p, gs.len() as int));
        assert(sorted_layouts(out@, p, gs));
    }
    out
}


/// A viewport as the text gives it; its position and sizes are the texts
/// of their values.
#[derive(Debug, Clone)]
pub struct ViewportRecord {
    pub handle: String,
    pub owner_handle: String,
    pub id: i32,
    pub center_x: Option<String>,
    pub center_y: Option<String>,
    pub width: Option<String>,
    pub height: Option<String>,
    pub view_center_x: Option<String>,
    pub view_center_y: Option<String>,
    pub view_height: Option<String>,
    pub status: i32,
}

/// The viewport the attribute pairs describe: for each attribute, the last
/// pair with its code wins.
pub open spec fn viewport_of(r: ViewportRecord, ps: Seq<(i32, Seq<char>)>) -> bool {
    &&& r.handle@ == text_or(last_value(ps, 5), Seq::empty())
    &&& r.owner_handle@ == text_or(last_value(ps, 330), Seq::empty())
    &&& r.id == int_or(last_value(ps, 69), 2)
    &&& opt_string(r.center_x) == last_value(ps, 10)
    &&& opt_string(r.center_y) == last_value(ps, 20)
    &&& opt_string(r.width) == last_value(ps, 40)
    &&& opt_string(r.height) == last_value(ps, 41)
    &&& opt_string(r.view_center_x) == last_value(ps, 12)
    &&& opt_string(r.view_center_y) == last_value(ps, 22)
    &&& opt_string(r.view_height) == last_value(ps, 45)
    &&& r.status == int_or(last_value(ps, 68), 1)
}

/// The viewport that attribute pairs describe.
pub fn viewport_record(pairs: &[DxfPair]) -> (r: ViewportRecord)
    ensures
        viewport_of(r, pair_views(pairs@)),
{
    let ghost ps = pair_views(pairs@);
    let mut r = ViewportRecord {
        handle: String::new(),
        owner_handle: String::new(),
        id: 2,
        center_x: None,
        center_y: None,
        width: None,
        height: None,
        view_center_x: None,
        view_center_y: None,
        view_height: None,
        status: 1,
    };
    let mut i: usize = 0;
    while i < pairs.len()
        invariant
            i <= pairs@.len(),
            ps == pair_views(pairs@),
            r.handle@ == text_or(last_value(ps.take(i as int), 5), Seq::empty()),
            r.owner_handle@ == text_or(last_value(ps.take(i as int), 330), Seq::empty()),
            r.id == int_or(last_value(ps.take(i as int), 69), 2),
            opt_string(r.center_x) == last_value(ps.take(i as int), 10),
            opt_string(r.center_y) == last_value(ps.take(i as int), 20),
            opt_string(r.width) == last_value(ps.take(i as int), 40),
            opt_string(r.height) == last_value(ps.take(i as int), 41),
            opt_string(r.view_center_x) == last_value(ps.take(i as int), 12),
            opt_string(r.view_center_y) == last_value(ps.take(i as int), 22),
            opt_string(r.view_height) == last_value(ps.take(i as int), 45),
            r.status == int_or(last_value(ps.take(i as int), 68), 1),
        decreases pairs@.len() - i,
    {
        let p = &pairs[i];
        proof {
            assert(ps[i as int] == p@);
            lemma_last_value_step(ps, i as int, 5);
            lemma_last_value_step(ps, i as int, 330);
            lemma_last_value_step(ps, i as int, 69);
            lemma_last_value_step(ps, i as int, 10);
            lemma_last_value_step(ps, i as int, 20);
            lemma_last_value_step(ps, i as int, 40);
            lemma_last_value_step(ps, i as int, 41);
            lemma_last_value_step(ps, i as int, 12);
            lemma_last_value_step(ps, i as int, 22);
            lemma_last_value_step(ps, i as int, 45);
            lemma_last_value_step(ps, i as int, 68);
        }
        if p.code == 5 {
            r.handle = trimmed_value(p);
        } else if p.code == 330 {
            r.owner_handle = trimmed_value(p);
        } else if p.code == 69 {
            r.id = match p.as_i32() {
                Some(v) => v,
                None => 2,
            };
        } else if p.code == 10 {
            r.center_x = raw_value(p);
        } else if p.code == 20 {
            r.center_y = raw_value(p);
        } else if p.code == 40 {
            r.width = raw_value(p);
        } else if p.code == 41 {
            r.height = raw_value(p);
        } else if p.code == 12 {
            r.view_center_x = raw_value(p);
        } else if p.code == 22 {
            r.view_center_y = raw_value(p);
        } else if p.code == 45 {
            r.view_height = raw_value(p);
        } else if p.code == 68 {
            r.status = match p.as_i32() {
                Some(v) => v,
                None => 1,
            };
        }
        i = i + 1;
    }
    proof {
        assert(ps.take(ps.len() as int) =~= ps);
    }
    r
}

/// The groups, among the first `n`, of viewports other than the
/// paper-space one (id 1), in order.
pub open spec fn kept_viewports(gs: Seq<Seq<(i32, Seq<char>)>>, n: int) -> Seq<int>
    decreases n,
{
    if n <= 0 {
        Seq::empty()
    } else if int_or(last_value(gs[n - 1], 69), 2) != 1 {
        kept_viewports(gs, n - 1).push(n - 1)
    } else {
        kept_viewports(gs, n - 1)
    }
}

/// The viewports of the ENTITIES section other than the paper-space one,
/// in the order of the text.
pub fn viewports(parser: &mut DxfRawParser) -> (r: Vec<ViewportRecord>)
    requires
        old(parser).wf(),
    ensures
        final(parser).wf(),
        final(parser).pairs() == old(parser).pairs(),
        ({
            let gs = section_groups(old(parser).pairs(), "ENTITIES"@, "VIEWPORT"@);
            let kept = kept_viewports(gs, gs.len() as int);
            &&& r@.len() == kept.len()
            &&& forall|k: int| 0 <= k < r@.len() ==> viewport_of(#[trigger] r@[k], gs[kept[k]])
        }),
{
    let groups = object_groups(parser, "ENTITIES", "VIEWPORT");
    let ghost gs = group_views(groups@);
    let mut out: Vec<ViewportRecord> = Vec::new();
    let mut i: usize = 0;
    while i < groups.len()
        invariant
            i <= groups@.len(),
            gs == group_views(groups@),
            out@.len() == kept_viewports(gs, i as int).len(),
            forall|k: int| 0 <= k < out@.len() ==> viewport_of(#[trigger] out@[k], gs[kept_viewports(gs, i as int)[k]]),
        decreases groups@.len() - i,
    {
        let rec = viewport_record(groups[i].as_slice());
        assert(pair_views(groups@[i as int]@) == gs[i as int]);
        if rec.id != 1 {
            out.push(rec);
        }
        i = i + 1;
    }
    out
}


/// A viewport to write, its numbers already in text.
#[derive(Debug, Clone)]
pub struct ViewportText {
    pub center_x: String,
    pub center_y: String,
    pub width: String,
    pub height: String,
    pub id: i32,
    pub view_center_x: String,
    pub view_center_y: String,
    pub view_height: String,
    pub status: i32,
}

/// A layout to write, its sizes already in text.
#[derive(Debug, Clone)]
pub struct LayoutText {
    pub name: String,
    pub block_record_handle: String,
    pub paper_width: String,
    pub paper_height: String,
    pub left_margin: String,
    pub bottom_margin: String,
    pub right_margin: String,
    pub top_margin: String,
    pub tab_order: i32,
}

/// The pairs of a VIEWPORT entity in paper space.
pub open spec fn viewport_pairs(handle: Seq<char>, v: ViewportText, owner: Seq<char>) -> Seq<(int, Seq<char>)> {
    seq![
        (0int, "VIEWPORT"@),
        (5int, handle),
        (330int, owner),
        (100int, "AcDbEntity"@),
        (67int, "1"@),
        (8int, "0"@),
        (100int, "AcDbViewport"@),
        (10int, v.center_x@),
        (20int, v.center_y@),
        (30int, "0"@),
        (40int, v.width@),
        (41int, v.height@),
        (69int, int_text(v.id as int)),
        (12int, v.view_center_x@),
        (22int, v.view_center_y@),
        (45int, v.view_height@),
        (68int, int_text(v.status as int)),
        (90int, "32864"@),
    ]
}

/// The pairs of a LAYOUT object.
pub open spec fn layout_pairs(handle: Seq<char>, l: LayoutText, dict: Seq<char>) -> Seq<(int, Seq<char>)> {
    seq![
        (0int, "LAYOUT"@),
        (5int, handle),
        (330int, dict),
        (100int, "AcDbPlotSettings"@),
        (1int, ""@),
        (2int, "none_device"@),
        (4int, ""@),
        (40int, l.left_margin@),
        (41int, l.bottom_margin@),
        (42int, l.right_margin@),
        (43int, l.top_margin@),
        (44int, l.paper_width@),
        (45int, l.paper_height@),
        (100int, "AcDbLayout"@),
        (1int, l.name@),
        (70int, "1"@),
        (71int, int_text(l.tab_order as int)),
        (330int, l.block_record_handle@),
    ]
}

/// The decimal text of an `i32`.
fn int_string(v: i32) -> (s: String)
    ensures
        s@ == int_text(v as int),
{
    let cs = int_to_chars(v as i64);
    string_of(cs.as_slice())
}

impl DxfWriter {
    /// Writes the pairs in order.
    fn write_pairs(&mut self, ps: &Vec<(i32, String)>)
        ensures
            final(self).next_handle() == old(self).next_handle(),
            final(self).lines() == old(self).lines() + lines_of_pairs(
                ps@.map_values(|p: (i32, String)| (p.0 as int, p.1@)),
            ),
    {
        let ghost want = ps@.map_values(|p: (i32, String)| (p.0 as int, p.1@));
        let mut i: usize = 0;
        while i < ps.len()
            invariant
                i <= ps@.len(),
                want == ps@.map_values(|p: (i32, String)| (p.0 as int, p.1@)),
                self.next_handle() == old(self).next_handle(),
                self.lines() == old(self).lines() + lines_of_pairs(want.take(i as int)),
            decreases ps@.len() - i,
        {
            let ghost before = self.lines();
            self.write_pair(ps[i].0, ps[i].1.as_str());
            proof {
                assert(want.take(i + 1).drop_last() =~= want.take(i as int));
                assert(want.take(i + 1).last() == want[i as int]);
                assert(before + lines_of_pairs(want.take(i as int)) + pair_lines(want[i as int].0, want[i as int].1)
                    =~= before + (lines_of_pairs(want.take(i as int)) + pair_lines(want[i as int].0, want[i as int].1)));
            }
            i = i + 1;
        }
        assert(want.take(ps@.len() as int) =~= want);
    }

    /// Writes a VIEWPORT entity owned by a block record, under a new handle.
    pub fn write_viewport(&mut self, viewport: &ViewportText, owner_handle: &str)
        requires
            old(self).next_handle() < u64::MAX,
        ensures
            final(self).next_handle() == old(self).next_handle() + 1,
            final(self).lines() == old(self).lines() + lines_of_pairs(
                viewport_pairs(hex_text(old(self).next_handle()), *viewport, owner_handle@),
            ),
    {
        let handle = self.new_handle();
        let mut ps: Vec<(i32, String)> = Vec::new();
        ps.push((0, "VIEWPORT".to_string()));
        ps.push((5, handle));
        ps.push((330, owner_handle.to_string()));
        ps.push((100, "AcDbEntity".to_string()));
        ps.push((67, "1".to_string()));
        ps.push((8, "0".to_string()));
        ps.push((100, "AcDbViewport".to_string()));
        ps.push((10, string_of(chars_of(viewport.center_x.as_str()).as_slice())));
        ps.push((20, string_of(chars_of(viewport.center_y.as_str()).as_slice())));
        ps.push((30, "0".to_string()));
        ps.push((40, string_of(chars_of(viewport.width.as_str()).as_slice())));
        ps.push((41, string_of(chars_of(viewport.height.as_str()).as_slice())));
        ps.push((69, int_string(viewport.id)));
        ps.push((12, string_of(chars_of(viewport.view_center_x.as_str()).as_slice())));
        ps.push((22, string_of(chars_of(viewport.view_center_y.as_str()).as_slice())));
        ps.push((45, string_of(chars_of(viewport.view_height.as_str()).as_slice())));
        ps.push((68, int_string(viewport.status)));
        ps.push((90, "32864".to_string()));
        proof {
            assert(ps@.map_values(|p: (i32, String)| (p.0 as int, p.1@)) =~= viewport_pairs(
                hex_text(old(self).next_handle()),
                *viewport,
                owner_handle@,
            ));
        }
        self.write_pairs(&ps);
    }

    /// Writes a LAYOUT object owned by a dictionary, under a new handle,
    /// and returns the handle.
    pub fn write_layout(&mut self, layout: &LayoutText, dict_handle: &str) -> (h: String)
        requires
            old(self).next_handle() < u64::MAX,
        ensures
            h@ == hex_text(old(self).next_handle()),
            final(self).next_handle() == old(self).next_handle() + 1,
            final(self).lines() == old(self).lines() + lines_of_pairs(layout_pairs(h@, *layout, dict_handle@)),
    {
        let handle = self.new_handle();
        let mut ps: Vec<(i32, String)> = Vec::new();
        ps.push((0, "LAYOUT".to_string()));
        ps.push((5, string_of(chars_of(handle.as_str()).as_slice())));
        ps.push((330, dict_handle.to_string()));
        ps.push((100, "AcDbPlotSettings".to_string()));
        ps.push((1, "".to_string()));
        ps.push((2, "none_device".to_string()));
        ps.push((4, "".to_string()));
        ps.push((40, string_of(chars_of(layout.left_margin.as_str()).as_slice())));
        ps.push((41, string_of(chars_of(layout.bottom_margin.as_str()).as_slice())));
        ps.push((42, string_of(chars_of(layout.right_margin.as_str()).as_slice())));
        ps.push((43, string_of(chars_of(layout.top_margin.as_str()).as_slice())));
        ps.push((44, string_of(chars_of(layout.paper_width.as_str()).as_slice())));
        ps.push((45, string_of(chars_of(layout.paper_height.as_str()).as_slice())));
        ps.push((100, "AcDbLayout".to_string()));
        ps.push((1, string_of(chars_of(layout.name.as_str()).as_slice())));
        ps.push((70, "1".to_string()));
        ps.push((71, int_string(layout.tab_order)));
        ps.push((330, string_of(chars_of(layout.block_record_handle.as_str()).as_slice())));
        proof {
            assert(ps@.map_values(|p: (i32, String)| (p.0 as int, p.1@)) =~= layout_pairs(
                handle@,
                *layout,
                dict_handle@,
            ));
        }
        self.write_pairs(&ps);
        handle
    }
}

} // verus!

//! Reading and writing DXF text as group-code/value pairs.
//!
//! A DXF file is a sequence of pairs of lines: the first line of a pair holds
//! an integer group code, the second its value. The reader stops after the
//! pair `0`/`EOF`; the writer right-aligns codes in three columns.

use vstd::prelude::*;
use crate::text::{
    chars_of, int_of_text, int_text, int_to_chars, joined, lines_of, pad_left, pad_left_chars,
    parse_i32, parse_i64, rows, string_of, text_lines, trim_chars, trimmed, join_strings, hex_text,
    digits_of, no_line_feed, strip_cr, lemma_code_line, lemma_int_text_roundtrip, lemma_trimmed_unchanged,
    lemma_text_lines_joined, lemma_hex_text_injective,
};

verus! {

broadcast use vstd::string::group_string_axioms;

/// The `i32` that `str::parse` reads from a text, if any.
pub open spec fn i32_of_text(s: Seq<char>) -> Option<i32> {
    match int_of_text(s) {
        Some(x) => if i32::MIN <= x <= i32::MAX {
            Some(x as i32)
        } else {
            None
        },
        None => None,
    }
}

/// The `i64` that `str::parse` reads from a text, if any.
pub open spec fn i64_of_text(s: Seq<char>) -> Option<i64> {
    match int_of_text(s) {
        Some(x) => if i64::MIN <= x <= i64::MAX {
            Some(x as i64)
        } else {
            None
        },
        None => None,
    }
}

/// A group code and its value.
#[derive(Debug, Clone)]
pub struct DxfPair {
    pub code: i32,
    pub value: String,
}

impl View for DxfPair {
    type V = (i32, Seq<char>);

    open spec fn view(&self) -> (i32, Seq<char>) {
        (self.code, self.value@)
    }
}

impl DxfPair {
    pub fn new(code: i32, value: &str) -> (r: Self)
        ensures
            r@ == (code, value@),
    {
        Self { code, value: value.to_string() }
    }

    /// The value, trimmed, read as an `i32`.
    pub fn as_i32(&self) -> (r: Option<i32>)
        ensures
            r == i32_of_text(trimmed(self.value@)),
    {
        let cs = chars_of(self.value.as_str());
        let t = trim_chars(cs.as_slice());
        parse_i32(t.as_slice())
    }

    /// The value, trimmed, read as an `i64`.
    pub fn as_i64(&self) -> (r: Option<i64>)
        ensures
            r == i64_of_text(trimmed(self.value@)),
    {
        let cs = chars_of(self.value.as_str());
        let t = trim_chars(cs.as_slice());
        parse_i64(t.as_slice())
    }

    /// A pair with the same code and value.
    pub fn duplicate(&self) -> (r: Self)
        ensures
            r@ == self@,
    {
        DxfPair { code: self.code, value: self.value.clone() }
    }
}

/// Why a DXF text could not be read.
#[derive(Debug, Clone, PartialEq, Eq)]
pub enum DxfParseError {
    /// A group-code line that is not an integer; the line as read.
    InvalidGroupCode(String),
}

/// The pairs read from the lines starting at line `i`, or the first group
/// code line that is not an `i32`. A code line without a value line ends
/// the text; the pair `0`/`EOF` (value trimmed) ends it too.
pub open spec fn pairs_from(lines: Seq<Seq<char>>, i: int) -> Result<
    Seq<(i32, Seq<char>)>,
    Seq<char>,
>
    decreases lines.len() - i,
{
    if i < 0 || i + 1 >= lines.len() {
        Ok(Seq::empty())
    } else {
        match i32_of_text(trimmed(lines[i])) {
            None => Err(lines[i]),
            Some(code) => {
                let p = (code, lines[i + 1]);
                if code == 0 && trimmed(lines[i + 1]) == "EOF"@ {
                    Ok(seq![p])
                } else {
                    match pairs_from(lines, i + 2) {
                        Ok(rest) => Ok(seq![p] + rest),
                        Err(e) => Err(e),
                    }
                }
            },
        }
    }
}

/// The pairs of a DXF text, or the offending group-code line.
pub open spec fn parse_pairs(text: Seq<char>) -> Result<Seq<(i32, Seq<char>)>, Seq<char>> {
    pairs_from(text_lines(text), 0)
}

/// The views of a list of pairs.
pub open spec fn pair_views(s: Seq<DxfPair>) -> Seq<(i32, Seq<char>)> {
    s.map_values(|p: DxfPair| p@)
}

/// The text view of an optional string slice.
pub open spec fn opt_text(v: Option<&str>) -> Option<Seq<char>> {
    match v {
        Some(x) => Some(x@),
        None => None,
    }
}

/// Whether a pair has the code and, when one is given, the trimmed value.
pub open spec fn pair_matches(p: (i32, Seq<char>), code: i32, value: Option<Seq<char>>) -> bool {
    p.0 == code && match value {
        Some(v) => trimmed(p.1) == v,
        None => true,
    }
}

/// The lines of a list of pairs, pair after pair.
pub open spec fn lines_of_pairs(ps: Seq<(int, Seq<char>)>) -> Seq<Seq<char>>
    decreases ps.len(),
{
    if ps.len() == 0 {
        Seq::empty()
    } else {
        lines_of_pairs(ps.drop_last()) + pair_lines(ps.last().0, ps.last().1)
    }
}

/// The pairs with their codes as integers.
pub open spec fn int_codes(ps: Seq<(i32, Seq<char>)>) -> Seq<(int, Seq<char>)> {
    ps.map_values(|p: (i32, Seq<char>)| (p.0 as int, p.1))
}

/// A pair that reads back as written: its value holds no line feed and
/// ends in no carriage return, and it is not the end-of-file pair.
pub open spec fn readable_pair(p: (i32, Seq<char>)) -> bool {
    &&& no_line_feed(p.1)
    &&& strip_cr(p.1) == p.1
    &&& !(p.0 == 0 && trimmed(p.1) == "EOF"@)
}

proof fn lemma_lines_of_pairs(ps: Seq<(int, Seq<char>)>)
    ensures
        lines_of_pairs(ps).len() == 2 * ps.len(),
        forall|k: int|
            0 <= k < ps.len() ==> #[trigger] lines_of_pairs(ps)[2 * k] == pad_left(int_text(ps[k].0), 3)
                && lines_of_pairs(ps)[2 * k + 1] == ps[k].1,
    decreases ps.len(),
{
    if ps.len() > 0 {
        let front = ps.drop_last();
        lemma_lines_of_pairs(front);
        assert forall|k: int| 0 <= k < ps.len() implies #[trigger] lines_of_pairs(ps)[2 * k] == pad_left(
            int_text(ps[k].0),
            3,
        ) && lines_of_pairs(ps)[2 * k + 1] == ps[k].1 by {
            if k < front.len() {
                assert(lines_of_pairs(front)[2 * k] == pad_left(int_text(front[k].0), 3));
                assert(front[k] == ps[k]);
            }
        }
    }
}

proof fn lemma_pairs_from_written(ps: Seq<(i32, Seq<char>)>, lines: Seq<Seq<char>>, k: int)
    requires
        ps.len() > 0,
        0 <= k < ps.len(),
        lines.len() == 2 * ps.len(),
        forall|j: int|
            0 <= j < ps.len() ==> #[trigger] lines[2 * j] == pad_left(int_text(ps[j].0 as int), 3)
                && lines[2 * j + 1] == ps[j].1,
        forall|j: int| 0 <= j < ps.len() - 1 ==> readable_pair(#[trigger] ps[j]),
        ps.last() == (0i32, "EOF"@),
        trimmed("EOF"@) == "EOF"@,
    ensures
        pairs_from(lines, 2 * k) == Ok::<Seq<(i32, Seq<char>)>, Seq<char>>(ps.subrange(k, ps.len() as int)),
    decreases ps.len() - k,
{
    let c = ps[k].0;
    assert(lines[2 * k] == pad_left(int_text(c as int), 3));
    lemma_code_line(c as int, 3);
    lemma_int_text_roundtrip(c as int);
    assert(i32_of_text(trimmed(lines[2 * k])) == Some(c));
    if k == ps.len() - 1 {
        assert(ps[k] == ps.last());
        assert(seq![(c, lines[2 * k + 1])] =~= ps.subrange(k, ps.len() as int));
    } else {
        assert(readable_pair(ps[k]));
        lemma_pairs_from_written(ps, lines, k + 1);
        assert(2 * k + 2 == 2 * (k + 1));
        assert(seq![(c, lines[2 * k + 1])] + ps.subrange(k + 1, ps.len() as int) =~= ps.subrange(k, ps.len() as int));
    }
}

/// Pairs written one after another, then the end-of-file pair, read back
/// as the same pairs followed by the end-of-file pair.
pub proof fn lemma_written_pairs_read_back(ps: Seq<(i32, Seq<char>)>)
    requires
        forall|k: int| 0 <= k < ps.len() ==> readable_pair(#[trigger] ps[k]),
    ensures
        parse_pairs(joined(lines_of_pairs(int_codes(ps.push((0i32, "EOF"@)))), '\n')) == Ok::<
            Seq<(i32, Seq<char>)>,
            Seq<char>,
        >(ps.push((0i32, "EOF"@))),
{
    reveal_strlit("EOF");
    let all = ps.push((0i32, "EOF"@));
    let qs = int_codes(all);
    let lines = lines_of_pairs(qs);
    lemma_lines_of_pairs(qs);
    let eof: Seq<char> = "EOF"@;
    assert(eof.len() == 3 && eof[0] == 'E' && eof[2] == 'F');
    lemma_trimmed_unchanged(eof);
    assert forall|j: int| 0 <= j < all.len() - 1 implies readable_pair(#[trigger] all[j]) by {
        assert(all[j] == ps[j]);
    }
    assert forall|j: int|
        0 <= j < all.len() implies #[trigger] lines[2 * j] == pad_left(int_text(all[j].0 as int), 3) && lines[2 * j
            + 1] == all[j].1 by {
        assert(qs[j] == (all[j].0 as int, all[j].1));
    }
    assert forall|m: int| 0 <= m < lines.len() implies no_line_feed(#[trigger] lines[m]) by {
        let j = m / 2;
        assert(0 <= j < all.len() && (m == 2 * j || m == 2 * j + 1));
        lemma_code_line(all[j].0 as int, 3);
        assert(qs[j] == (all[j].0 as int, all[j].1));
        assert(lines_of_pairs(qs)[2 * j] == pad_left(int_text(qs[j].0), 3) && lines_of_pairs(qs)[2 * j + 1] == qs[j].1);
        if m == 2 * j + 1 && j < all.len() - 1 {
            assert(readable_pair(all[j]));
        }
        if m == 2 * j + 1 && j == all.len() - 1 {
            assert(lines[m] == eof);
        }
    }
    assert forall|m: int| 0 <= m < lines.len() - 1 implies strip_cr(#[trigger] lines[m]) == lines[m] by {
        let j = m / 2;
        assert(0 <= j < all.len() && (m == 2 * j || m == 2 * j + 1));
        lemma_code_line(all[j].0 as int, 3);
        assert(qs[j] == (all[j].0 as int, all[j].1));
        assert(lines_of_pairs(qs)[2 * j] == pad_left(int_text(qs[j].0), 3) && lines_of_pairs(qs)[2 * j + 1] == qs[j].1);
        if m == 2 * j + 1 {
            assert(j < all.len() - 1);
            assert(readable_pair(all[j]));
        }
    }
    assert(lines.last() == eof) by {
        assert(lines[2 * (all.len() - 1) + 1] == all[all.len() - 1].1);
    }
    lemma_text_lines_joined(lines);
    lemma_pairs_from_written(all, lines, 0);
    assert(all.subrange(0, all.len() as int) =~= all);
}

/// The handles one writer issues are pairwise distinct: each is the
/// hexadecimal text of the counter when it is issued, every issue moves
/// the counter on by one and nothing moves it back, so two issues see
/// different counters, and different counters have different texts.
pub proof fn lemma_handles_distinct(earlier: nat, later: nat)
    requires
        earlier < later,
    ensures
        hex_text(earlier) != hex_text(later),
{
    lemma_hex_text_injective(earlier, later);
}

/// A cursor over the pairs of a DXF text.
pub struct DxfRawParser {
    pairs: Vec<DxfPair>,
    position: usize,
}

impl DxfRawParser {
    /// The pairs, in the order of the text.
    pub closed spec fn pairs(&self) -> Seq<(i32, Seq<char>)> {
        pair_views(self.pairs@)
    }

    /// Index of the current pair.
    pub closed spec fn pos(&self) -> int {
        self.position as int
    }

    /// The cursor stands on a pair or just after the last one.
    pub closed spec fn wf(&self) -> bool {
        self.position <= self.pairs@.len()
    }

    /// A well-formed cursor stands within the pairs or just after them.
    pub proof fn lemma_pos_in_range(&self)
        requires
            self.wf(),
        ensures
            0 <= self.pos() <= self.pairs().len(),
    {
    }

    /// Reads the pairs of a DXF text; the cursor starts on the first pair.
    pub fn parse(text: &str) -> (r: Result<Self, DxfParseError>)
        ensures
            match parse_pairs(text@) {
                Ok(ps) => r matches Ok(p) && p.wf() && p.pairs() == ps && p.pos() == 0,
                Err(line) => r matches Err(DxfParseError::InvalidGroupCode(l)) && l@ == line,
            },
    {
        let lines = lines_of(text);
        let ghost ls = rows(lines@);
        let mut pairs: Vec<DxfPair> = Vec::new();
        let mut i: usize = 0;
        while lines.len() - i >= 2
            invariant
                ls == rows(lines@),
                ls == text_lines(text@),
                i <= lines@.len(),
                parse_pairs(text@) == (match pairs_from(ls, i as int) {
                    Ok(rest) => Ok(pair_views(pairs@) + rest),
                    Err(e) => Err(e),
                }),
            decreases lines@.len() - i,
        {
            let code_line = &lines[i];
            let t = trim_chars(code_line.as_slice());
            let code = match parse_i32(t.as_slice()) {
                Some(c) => c,
                None => {
                    return Err(DxfParseError::InvalidGroupCode(string_of(code_line.as_slice())));
                },
            };
            let value = string_of(lines[i + 1].as_slice());
            let tv = trim_chars(lines[i + 1].as_slice());
            let is_eof = code == 0 && tv.len() == 3 && tv[0] == 'E' && tv[1] == 'O' && tv[2]
                == 'F';
            let ghost before = pair_views(pairs@);
            pairs.push(DxfPair { code, value });
            proof {
                reveal_strlit("EOF");
                assert(pair_views(pairs@) =~= before + seq![(code, ls[i + 1])]);
                if code == 0 {
                    assert(is_eof == (trimmed(ls[i + 1]) =~= "EOF"@));
                }
            }
            if is_eof {
                proof {
                    assert(pair_views(pairs@) + Seq::<(i32, Seq<char>)>::empty() =~= pair_views(
                        pairs@,
                    ));
                }
                return Ok(DxfRawParser { pairs, position: 0 });
            }
            proof {
                match pairs_from(ls, i + 2) {
                    Ok(rest) => {
                        assert(before + (seq![(code, ls[i + 1])] + rest) =~= pair_views(pairs@)
                            + rest);
                    },
                    Err(e) => {},
                }
            }
            i = i + 2;
        }
        proof {
            assert(pair_views(pairs@) + Seq::<(i32, Seq<char>)>::empty() =~= pair_views(pairs@));
        }
        Ok(DxfRawParser { pairs, position: 0 })
    }

    /// The pair under the cursor, if any.
    pub fn current(&self) -> (r: Option<&DxfPair>)
        requires
            self.wf(),
        ensures
            match r {
                Some(p) => self.pos() < self.pairs().len() && p@ == self.pairs()[self.pos()],
                None => self.pos() == self.pairs().len(),
            },
    {
        if self.position < self.pairs.len() {
            Some(&self.pairs[self.position])
        } else {
            None
        }
    }

    /// Returns the pair under the cursor and moves past it.
    pub fn advance(&mut self) -> (r: Option<&DxfPair>)
        requires
            old(self).wf(),
        ensures
            final(self).wf(),
            final(self).pairs() == old(self).pairs(),
            match r {
                Some(p) => {
                    &&& old(self).pos() < old(self).pairs().len()
                    &&& p@ == old(self).pairs()[old(self).pos()]
                    &&& final(self).pos() == old(self).pos() + 1
                },
                None => {
                    &&& old(self).pos() == old(self).pairs().len()
                    &&& final(self).pos() == old(self).pos()
                },
            },
    {
        if self.position < self.pairs.len() {
            let i = self.position;
            self.position = i + 1;
            Some(&self.pairs[i])
        } else {
            None
        }
    }

    /// Moves the cursor one pair back, unless it is on the first.
    pub fn back(&mut self)
        requires
            old(self).wf(),
        ensures
            final(self).wf(),
            final(self).pairs() == old(self).pairs(),
            final(self).pos() == (if old(self).pos() > 0 {
                old(self).pos() - 1
            } else {
                0
            }),
    {
        if self.position > 0 {
            self.position = self.position - 1;
        }
    }

    /// Puts the cursor on the first pair.
    pub fn rewind(&mut self)
        requires
            old(self).wf(),
        ensures
            final(self).wf(),
            final(self).pairs() == old(self).pairs(),
            final(self).pos() == 0,
    {
        self.position = 0;
    }

    /// Moves past the next pair with the code (and, when given, the trimmed
    /// value); the cursor ends after it, or at the end when there is none.
    pub fn skip_to(&mut self, code: i32, value: Option<&str>) -> (found: bool)
        requires
            old(self).wf(),
        ensures
            final(self).wf(),
            final(self).pairs() == old(self).pairs(),
            found == exists|j: int|
                old(self).pos() <= j < old(self).pairs().len() && pair_matches(
                    #[trigger] old(self).pairs()[j],
                    code,
                    opt_text(value),
                ),
            found ==> pair_matches(
                old(self).pairs()[final(self).pos() - 1],
                code,
                opt_text(value),
            ) && old(self).pos() < final(self).pos() && forall|j: int|
                old(self).pos() <= j < final(self).pos() - 1 ==> !pair_matches(
                    #[trigger] old(self).pairs()[j],
                    code,
                    opt_text(value),
                ),
            !found ==> final(self).pos() == old(self).pairs().len(),
    {
        let ghost start = self.pos();
        let ghost all = self.pairs();
        let ghost want = opt_text(value);
        let wanted: Option<Vec<char>> = match value {
            Some(v) => Some(chars_of(v)),
            None => None,
        };
        let mut found = false;
        while !found && self.position < self.pairs.len()
            invariant
                self.wf(),
                self.pairs() == all,
                start <= self.pos(),
                want == opt_text(value),
                match wanted {
                    Some(w) => want == Some(w@),
                    None => want is None,
                },
                found ==> start < self.pos() && pair_matches(all[self.pos() - 1], code, want),
                forall|j: int|
                    start <= j < self.pos() - (if found {
                        1int
                    } else {
                        0int
                    }) ==> !pair_matches(#[trigger] all[j], code, want),
            decreases self.pairs@.len() - self.position,
        {
            let i = self.position;
            self.position = i + 1;
            assert(all[i as int] == self.pairs@[i as int]@);
            if self.pairs[i].code == code {
                match &wanted {
                    Some(w) => {
                        let vc = chars_of(self.pairs[i].value.as_str());
                        let t = trim_chars(vc.as_slice());
                        if crate::text::chars_eq(t.as_slice(), w.as_slice()) {
                            found = true;
                        }
                    },
                    None => {
                        found = true;
                    },
                }
            }
        }
        found
    }

    /// The pairs from the cursor up to, not including, the next pair with
    /// code 0; the cursor ends on that pair, or at the end.
    pub fn read_until_zero(&mut self) -> (r: Vec<DxfPair>)
        requires
            old(self).wf(),
        ensures
            final(self).wf(),
            final(self).pairs() == old(self).pairs(),
            old(self).pos() <= final(self).pos() <= old(self).pairs().len(),
            pair_views(r@) == old(self).pairs().subrange(old(self).pos(), final(self).pos()),
            forall|j: int|
                old(self).pos() <= j < final(self).pos() ==> (#[trigger] old(self).pairs()[j]).0
                    != 0,
            final(self).pos() < old(self).pairs().len() ==> old(self).pairs()[final(self).pos()].0
                == 0,
    {
        let ghost start = self.pos();
        let ghost all = self.pairs();
        let mut result: Vec<DxfPair> = Vec::new();
        while self.position < self.pairs.len() && self.pairs[self.position].code != 0
            invariant
                self.wf(),
                self.pairs() == all,
                0 <= start <= self.pos(),
                pair_views(result@) == self.pairs().subrange(start, self.pos()),
                forall|j: int| start <= j < self.pos() ==> (#[trigger] self.pairs()[j]).0 != 0,
            decreases self.pairs@.len() - self.position,
        {
            let i = self.position;
            let ghost before = pair_views(result@);
            result.push(self.pairs[i].duplicate());
            self.position = i + 1;
            assert(all[i as int] == self.pairs@[i as int]@);
            assert(pair_views(result@) =~= before.push(all[i as int]));
            let ghost next = i + 1;
            assert(all.subrange(start, next) =~= all.subrange(start, i as int).push(all[i as int]));
        }
        result
    }
}

/// The two lines of a pair as the writer lays them out: the code
/// right-aligned in three columns, then the value.
pub open spec fn pair_lines(code: int, value: Seq<char>) -> Seq<Seq<char>> {
    seq![pad_left(int_text(code), 3), value]
}

/// Builds DXF text pair by pair and hands out object handles.
pub struct DxfWriter {
    output: Vec<String>,
    handle_counter: u64,
}

impl DxfWriter {
    /// The lines written so far.
    pub closed spec fn lines(&self) -> Seq<Seq<char>> {
        self.output@.map_values(|x: String| x@)
    }

    /// The number the next handle will carry.
    pub closed spec fn next_handle(&self) -> nat {
        self.handle_counter as nat
    }

    /// The number the next handle will carry.
    pub fn next_handle_value(&self) -> (n: u64)
        ensures
            n == self.next_handle(),
    {
        self.handle_counter
    }

    /// An empty writer; handles start at 100 (hexadecimal `64`).
    pub fn new() -> (w: Self)
        ensures
            w.lines() == Seq::<Seq<char>>::empty(),
            w.next_handle() == 100,
    {
        let w = Self { output: Vec::new(), handle_counter: 100 };
        assert(w.lines() =~= Seq::<Seq<char>>::empty());
        w
    }

    fn push_line(&mut self, line: String)
        ensures
            final(self).lines() == old(self).lines().push(line@),
            final(self).next_handle() == old(self).next_handle(),
    {
        self.output.push(line);
        assert(self.lines() =~= old(self).lines().push(line@));
    }

    fn take_handle(&mut self) -> (h: String)
        requires
            old(self).next_handle() < u64::MAX,
        ensures
            h@ == hex_text(old(self).next_handle()),
            final(self).next_handle() == old(self).next_handle() + 1,
            final(self).lines() == old(self).lines(),
    {
        let digits = digits_of(self.handle_counter, 16);
        self.handle_counter = self.handle_counter + 1;
        string_of(digits.as_slice())
    }

    /// A new handle: the counter in upper-case hexadecimal; the counter
    /// moves on by one.
    pub fn new_handle(&mut self) -> (h: String)
        requires
            old(self).next_handle() < u64::MAX,
        ensures
            h@ == hex_text(old(self).next_handle()),
            final(self).next_handle() == old(self).next_handle() + 1,
            final(self).lines() == old(self).lines(),
    {
        self.take_handle()
    }

    /// Writes a group code and its value.
    pub fn write_pair(&mut self, code: i32, value: &str)
        ensures
            final(self).lines() == old(self).lines() + pair_lines(code as int, value@),
            final(self).next_handle() == old(self).next_handle(),
    {
        let code_text = pad_left_chars(int_to_chars(code as i64), 3);
        self.push_line(string_of(code_text.as_slice()));
        self.push_line(value.to_string());
        assert(self.lines() =~= old(self).lines() + pair_lines(code as int, value@));
    }

    /// Writes a new handle under code 5 and returns it.
    pub fn write_handle(&mut self) -> (h: String)
        requires
            old(self).next_handle() < u64::MAX,
        ensures
            h@ == hex_text(old(self).next_handle()),
            final(self).next_handle() == old(self).next_handle() + 1,
            final(self).lines() == old(self).lines() + pair_lines(5, h@),
    {
        let h = self.take_handle();
        self.write_pair(5, h.as_str());
        h
    }

    /// Writes a new handle under code 5.
    pub fn write_handle_only(&mut self)
        requires
            old(self).next_handle() < u64::MAX,
        ensures
            final(self).next_handle() == old(self).next_handle() + 1,
            final(self).lines() == old(self).lines() + pair_lines(
                5,
                hex_text(old(self).next_handle()),
            ),
    {
        let h = self.take_handle();
        self.write_pair(5, h.as_str());
    }

    /// Writes a point from its coordinate texts: x under the base code, y
    /// ten codes above, and a zero z twenty codes above.
    pub fn write_point(&mut self, base_code: i32, x: &str, y: &str)
        requires
            base_code <= i32::MAX - 20,
        ensures
            final(self).next_handle() == old(self).next_handle(),
            final(self).lines() == old(self).lines() + pair_lines(base_code as int, x@) + pair_lines(
                base_code + 10,
                y@,
            ) + pair_lines(base_code + 20, "0"@),
    {
        self.write_pair(base_code, x);
        self.write_pair(base_code + 10, y);
        self.write_pair(base_code + 20, "0");
    }

    /// Opens a section: `0`/`SECTION`, then `2`/name.
    pub fn begin_section(&mut self, name: &str)
        ensures
            final(self).next_handle() == old(self).next_handle(),
            final(self).lines() == old(self).lines() + pair_lines(0, "SECTION"@) + pair_lines(
                2,
                name@,
            ),
    {
        self.write_pair(0, "SECTION");
        self.write_pair(2, name);
    }

    /// Closes a section: `0`/`ENDSEC`.
    pub fn end_section(&mut self)
        ensures
            final(self).next_handle() == old(self).next_handle(),
            final(self).lines() == old(self).lines() + pair_lines(0, "ENDSEC"@),
    {
        self.write_pair(0, "ENDSEC");
    }

    /// The text: every line written, then `0`/`EOF`, joined by line feeds.
    pub fn finish(self) -> (text: String)
        ensures
            text@ == joined(self.lines() + pair_lines(0, "EOF"@), '\n'),
    {
        let mut w = self;
        w.write_pair(0, "EOF");
        join_strings(&w.output, '\n')
    }
}

} // verus!

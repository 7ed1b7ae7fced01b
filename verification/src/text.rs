//! Character-level text helpers shared by the parsers and writers.

use vstd::prelude::*;
use vstd::string::*;
use vstd::std_specs::iter::IteratorSpec;

verus! {

broadcast use vstd::string::group_string_axioms;

/// Appends one character to a string (`String::push`).
#[verifier::external_body]
pub fn push_char(s: &mut String, c: char)
    ensures
        final(s)@ == old(s)@.push(c),
{
    s.push(c);
}

/// Name for what `str::to_uppercase` returns: the full Unicode upper-case
/// mapping of the text, which is a function of the text alone.
pub uninterp spec fn spec_to_uppercase(s: Seq<char>) -> Seq<char>;

/// Whether every character of a text is ASCII.
pub open spec fn is_ascii_text(s: Seq<char>) -> bool {
    forall|i: int| 0 <= i < s.len() ==> (#[trigger] s[i] as int) < 128
}

/// ASCII upper-casing of one character: `a`..`z` become `A`..`Z`.
pub open spec fn ascii_upper(c: char) -> char {
    if 'a' <= c && c <= 'z' {
        ((c as int) - 32) as char
    } else {
        c
    }
}

/// Upper-cases a text with `str::to_uppercase`.
/// The contract names the result and states the documented ASCII case:
/// on ASCII text the Unicode mapping upper-cases `a`..`z` and keeps the
/// rest. The Unicode case tables for other characters are not restated.
#[verifier::external_body]
pub fn to_uppercase(s: &str) -> (r: String)
    ensures
        r@ == spec_to_uppercase(s@),
        is_ascii_text(s@) ==> r@ == s@.map_values(|c: char| ascii_upper(c)),
{
    s.to_uppercase()
}

/// The characters of a text, in order.
pub fn chars_of(s: &str) -> (v: Vec<char>)
    ensures
        v@ == s@,
{
    let mut v: Vec<char> = Vec::new();
    let mut it = s.chars();
    loop
        invariant
            v@ + it.remaining() == s@,
            it.obeys_prophetic_iter_laws(),
            it.decrease() is Some,
        ensures
            v@ == s@,
        decreases it.decrease()->0,
    {
        let ghost before = it.remaining();
        match it.next() {
            Some(c) => {
                proof {
                    assert(before.len() > 0);
                    assert(v@.push(c) + before.drop_first() =~= v@ + before);
                }
                v.push(c);
            },
            None => {
                assert(v@ =~= s@);
                break ;
            },
        }
    }
    v
}

/// A string holding the given characters.
pub fn string_of(v: &[char]) -> (s: String)
    ensures
        s@ == v@,
{
    let mut s = String::new();
    let mut i: usize = 0;
    while i < v.len()
        invariant
            i <= v@.len(),
            s@ == v@.take(i as int),
        decreases v@.len() - i,
    {
        push_char(&mut s, v[i]);
        assert(v@.take(i as int).push(v@[i as int]) =~= v@.take(i + 1));
        i = i + 1;
    }
    assert(v@.take(v@.len() as int) =~= v@);
    s
}

/// Unicode `White_Space` characters, the set `char::is_whitespace` tests.
pub open spec fn is_space(c: char) -> bool {
    ||| ('\u{9}' <= c && c <= '\u{d}')
    ||| c == ' '
    ||| c == '\u{85}'
    ||| c == '\u{a0}'
    ||| c == '\u{1680}'
    ||| ('\u{2000}' <= c && c <= '\u{200a}')
    ||| c == '\u{2028}'
    ||| c == '\u{2029}'
    ||| c == '\u{202f}'
    ||| c == '\u{205f}'
    ||| c == '\u{3000}'
}

pub fn is_space_char(c: char) -> (r: bool)
    ensures
        r == is_space(c),
{
    ('\u{9}' <= c && c <= '\u{d}') || c == ' ' || c == '\u{85}' || c == '\u{a0}' || c
        == '\u{1680}' || ('\u{2000}' <= c && c <= '\u{200a}') || c == '\u{2028}' || c
        == '\u{2029}' || c == '\u{202f}' || c == '\u{205f}' || c == '\u{3000}'
}

/// Number of leading white-space characters.
pub open spec fn lead_spaces(s: Seq<char>) -> nat
    decreases s.len(),
{
    if s.len() > 0 && is_space(s[0]) {
        1 + lead_spaces(s.drop_first())
    } else {
        0
    }
}

/// Number of trailing white-space characters.
pub open spec fn trail_spaces(s: Seq<char>) -> nat
    decreases s.len(),
{
    if s.len() > 0 && is_space(s.last()) {
        1 + trail_spaces(s.drop_last())
    } else {
        0
    }
}

/// The text without leading and trailing white space (`str::trim`).
pub open spec fn trimmed(s: Seq<char>) -> Seq<char> {
    let a = s.skip(lead_spaces(s) as int);
    a.take(a.len() - trail_spaces(a))
}

proof fn lemma_lead_spaces(s: Seq<char>, i: int)
    requires
        0 <= i <= s.len(),
        forall|j: int| 0 <= j < i ==> is_space(#[trigger] s[j]),
        i == s.len() || !is_space(s[i]),
    ensures
        lead_spaces(s) == i,
    decreases i,
{
    if i > 0 {
        assert forall|j: int| 0 <= j < i - 1 implies is_space(#[trigger] s.drop_first()[j]) by {
            assert(s.drop_first()[j] == s[j + 1]);
        }
        if i - 1 < s.drop_first().len() {
            assert(s.drop_first()[i - 1] == s[i]);
        }
        lemma_lead_spaces(s.drop_first(), i - 1);
    }
}

proof fn lemma_trail_spaces(s: Seq<char>, k: int)
    requires
        0 <= k <= s.len(),
        forall|j: int| s.len() - k <= j < s.len() ==> is_space(#[trigger] s[j]),
        k == s.len() || !is_space(s[s.len() - k - 1]),
    ensures
        trail_spaces(s) == k,
    decreases k,
{
    if k > 0 {
        let t = s.drop_last();
        assert forall|j: int| t.len() - (k - 1) <= j < t.len() implies is_space(#[trigger] t[j]) by {
            assert(t[j] == s[j]);
        }
        if k - 1 < t.len() {
            assert(t[t.len() - (k - 1) - 1] == s[s.len() - k - 1]);
        }
        lemma_trail_spaces(t, k - 1);
    }
}

/// The characters of a text without leading and trailing white space.
pub fn trim_chars(s: &[char]) -> (r: Vec<char>)
    ensures
        r@ == trimmed(s@),
{
    let n = s.len();
    let mut i: usize = 0;
    while i < n && is_space_char(s[i])
        invariant
            n == s@.len(),
            i <= n,
            forall|j: int| 0 <= j < i ==> is_space(#[trigger] s@[j]),
        decreases n - i,
    {
        i = i + 1;
    }
    proof {
        lemma_lead_spaces(s@, i as int);
    }
    let mut e: usize = n;
    while e > i && is_space_char(s[e - 1])
        invariant
            n == s@.len(),
            i <= e <= n,
            forall|j: int| e <= j < n ==> is_space(#[trigger] s@[j]),
        decreases e,
    {
        e = e - 1;
    }
    let ghost a = s@.skip(i as int);
    proof {
        assert forall|j: int| a.len() - (n - e) <= j < a.len() implies is_space(#[trigger] a[j]) by {
            assert(a[j] == s@[j + i]);
        }
        if n - e < a.len() {
            assert(a[a.len() - (n - e) - 1] == s@[e - 1]);
        }
        lemma_trail_spaces(a, (n - e) as int);
    }
    let mut r: Vec<char> = Vec::new();
    let mut k: usize = i;
    while k < e
        invariant
            i <= k <= e <= n,
            n == s@.len(),
            r@ == s@.subrange(i as int, k as int),
        decreases e - k,
    {
        r.push(s[k]);
        assert(s@.subrange(i as int, k as int).push(s@[k as int]) =~= s@.subrange(
            i as int,
            k + 1,
        ));
        k = k + 1;
    }
    assert(r@ =~= a.take(a.len() - (n - e)));
    r
}

/// Whether `p` is a prefix of `s`.
pub open spec fn has_prefix(s: Seq<char>, p: Seq<char>) -> bool {
    p.len() <= s.len() && s.take(p.len() as int) == p
}

pub fn starts_with(s: &[char], p: &[char]) -> (r: bool)
    ensures
        r == has_prefix(s@, p@),
{
    if p.len() > s.len() {
        return false;
    }
    let mut i: usize = 0;
    while i < p.len()
        invariant
            p@.len() <= s@.len(),
            i <= p@.len(),
            forall|j: int| 0 <= j < i ==> s@[j] == p@[j],
        decreases p@.len() - i,
    {
        if s[i] != p[i] {
            assert(s@.take(p@.len() as int)[i as int] != p@[i as int]);
            return false;
        }
        i = i + 1;
    }
    assert(s@.take(p@.len() as int) =~= p@);
    true
}

/// Equality of two character sequences, element by element.
pub fn chars_eq(a: &[char], b: &[char]) -> (r: bool)
    ensures
        r == (a@ == b@),
{
    if a.len() != b.len() {
        return false;
    }
    let mut i: usize = 0;
    while i < a.len()
        invariant
            a@.len() == b@.len(),
            i <= a@.len(),
            forall|j: int| 0 <= j < i ==> a@[j] == b@[j],
        decreases a@.len() - i,
    {
        if a[i] != b[i] {
            return false;
        }
        i = i + 1;
    }
    assert(a@ =~= b@);
    true
}

/// Strict lexicographic order on character sequences, by code point.
pub open spec fn seq_less(a: Seq<char>, b: Seq<char>) -> bool
    decreases a.len(),
{
    if b.len() == 0 {
        false
    } else if a.len() == 0 {
        true
    } else if a[0] != b[0] {
        (a[0] as int) < (b[0] as int)
    } else {
        seq_less(a.drop_first(), b.drop_first())
    }
}

/// No sequence is below itself.
pub proof fn lemma_seq_less_irreflexive(a: Seq<char>)
    ensures
        !seq_less(a, a),
    decreases a.len(),
{
    if a.len() > 0 {
        lemma_seq_less_irreflexive(a.drop_first());
    }
}

/// The order is transitive.
pub proof fn lemma_seq_less_transitive(a: Seq<char>, b: Seq<char>, c: Seq<char>)
    requires
        seq_less(a, b),
        seq_less(b, c),
    ensures
        seq_less(a, c),
    decreases a.len(),
{
    if a.len() > 0 && b.len() > 0 && c.len() > 0 && a[0] == b[0] && b[0] == c[0] {
        lemma_seq_less_transitive(a.drop_first(), b.drop_first(), c.drop_first());
    }
}

/// Two different sequences are ordered one way or the other.
pub proof fn lemma_seq_less_total(a: Seq<char>, b: Seq<char>)
    requires
        a != b,
    ensures
        seq_less(a, b) || seq_less(b, a),
    decreases a.len(),
{
    if a.len() > 0 && b.len() > 0 && a[0] == b[0] {
        if a.drop_first() == b.drop_first() {
            assert(a =~= seq![a[0]] + a.drop_first());
            assert(b =~= seq![b[0]] + b.drop_first());
        }
        lemma_seq_less_total(a.drop_first(), b.drop_first());
    } else if a.len() == 0 && b.len() == 0 {
        assert(a =~= b);
    } else if a.len() > 0 && b.len() > 0 {
        assert((a[0] as int) != (b[0] as int));
    }
}

/// The order is asymmetric.
pub proof fn lemma_seq_less_asymmetric(a: Seq<char>, b: Seq<char>)
    requires
        seq_less(a, b),
    ensures
        !seq_less(b, a),
{
    if seq_less(b, a) {
        lemma_seq_less_transitive(a, b, a);
        lemma_seq_less_irreflexive(a);
    }
}

pub fn chars_less(a: &[char], b: &[char]) -> (r: bool)
    ensures
        r == seq_less(a@, b@),
{
    let mut i: usize = 0;
    assert(a@.skip(0) =~= a@);
    assert(b@.skip(0) =~= b@);
    while i < a.len() && i < b.len() && a[i] == b[i]
        invariant
            i <= a@.len(),
            i <= b@.len(),
            seq_less(a@, b@) == seq_less(a@.skip(i as int), b@.skip(i as int)),
        decreases a@.len() - i,
    {
        proof {
            let x = a@.skip(i as int);
            let y = b@.skip(i as int);
            assert(x.drop_first() =~= a@.skip(i + 1));
            assert(y.drop_first() =~= b@.skip(i + 1));
        }
        i = i + 1;
    }
    if i == b.len() {
        false
    } else if i == a.len() {
        true
    } else {
        a[i] < b[i]
    }
}

/// Value of an ASCII digit.
pub open spec fn digit_value(c: char) -> int {
    (c as int) - ('0' as int)
}

pub open spec fn is_digit(c: char) -> bool {
    '0' <= c && c <= '9'
}

pub open spec fn all_digits(s: Seq<char>) -> bool {
    forall|i: int| 0 <= i < s.len() ==> is_digit(#[trigger] s[i])
}

/// Decimal value of a digit string.
pub open spec fn digits_value(s: Seq<char>) -> int
    decreases s.len(),
{
    if s.len() == 0 {
        0
    } else {
        digits_value(s.drop_last()) * 10 + digit_value(s.last())
    }
}

/// The integer that `str::parse` reads from a text: an optional `+` or `-`
/// sign followed by at least one ASCII digit, and nothing else.
pub open spec fn int_of_text(s: Seq<char>) -> Option<int> {
    if s.len() > 0 && (s[0] == '+' || s[0] == '-') {
        let d = s.drop_first();
        if d.len() > 0 && all_digits(d) {
            if s[0] == '-' {
                Some(-digits_value(d))
            } else {
                Some(digits_value(d))
            }
        } else {
            None
        }
    } else if s.len() > 0 && all_digits(s) {
        Some(digits_value(s))
    } else {
        None
    }
}

proof fn lemma_digits_nonneg(s: Seq<char>)
    requires
        all_digits(s),
    ensures
        digits_value(s) >= 0,
    decreases s.len(),
{
    if s.len() > 0 {
        lemma_digits_nonneg(s.drop_last());
    }
}

proof fn lemma_digit_char_value(d: nat)
    requires
        d < 10,
    ensures
        is_digit(digit_char(d)),
        digit_value(digit_char(d)) == d,
{
    assert(((48 + d) as u8) as int == 48 + d);
    assert((((48 + d) as u8) as char) as int == 48 + d);
}

/// The decimal digits of a number are digits, and read back as it.
proof fn lemma_decimal_digits(n: nat)
    ensures
        all_digits(digits_in_base(n, 10)),
        digits_in_base(n, 10).len() > 0,
        digits_value(digits_in_base(n, 10)) == n,
    decreases n,
{
    let s = digits_in_base(n, 10);
    if n < 10 {
        assert(n % 16 == n);
        lemma_digit_char_value(n);
        assert(s.drop_last() =~= Seq::<char>::empty());
        assert(digits_value(s) == digits_value(s.drop_last()) * 10 + digit_value(s.last()));
    } else {
        let q = n / 10;
        let r = n % 10;
        assert(q < n && q * 10 + r == n && r < 10) by (nonlinear_arith)
            requires
                n >= 10,
                q == n / 10,
                r == n % 10,
        ;
        lemma_decimal_digits(q);
        lemma_digit_char_value(r);
        let t = digits_in_base(q, 10);
        assert(s == t.push(digit_char(r)));
        assert(s.drop_last() =~= t);
        assert(digits_value(s) == digits_value(t) * 10 + digit_value(digit_char(r)));
        assert forall|i: int| 0 <= i < s.len() implies is_digit(#[trigger] s[i]) by {
            if i < t.len() {
                assert(s[i] == t[i]);
            }
        }
    }
}

/// The decimal text of an integer reads back as the integer.
pub proof fn lemma_int_text_roundtrip(i: int)
    ensures
        int_of_text(int_text(i)) == Some(i),
{
    if i < 0 {
        let d = digits_in_base((-i) as nat, 10);
        lemma_decimal_digits((-i) as nat);
        let s = seq!['-'] + d;
        assert(s[0] == '-');
        assert(s.drop_first() =~= d);
    } else {
        lemma_decimal_digits(i as nat);
        let d = digits_in_base(i as nat, 10);
        assert(is_digit(d[0]));
    }
}

/// The decimal text of an integer, right-aligned in a field, trims back
/// to the text.
pub proof fn lemma_trimmed_padded_int(i: int, w: nat)
    ensures
        trimmed(pad_left(int_text(i), w)) == int_text(i),
{
    let s = int_text(i);
    let d = digits_in_base(if i < 0 { (-i) as nat } else { i as nat }, 10);
    lemma_decimal_digits(if i < 0 { (-i) as nat } else { i as nat });
    assert(s.len() > 0);
    assert(!is_space(s[0])) by {
        if i >= 0 {
            assert(is_digit(d[0]));
        }
    }
    assert(!is_space(s[s.len() - 1])) by {
        assert(is_digit(d[d.len() - 1]));
        if i < 0 {
            assert(s[s.len() - 1] == d[d.len() - 1]);
        }
    }
    let p = pad_left(s, w);
    let k: int = if s.len() < w { w - s.len() } else { 0 };
    assert(p.skip(k) =~= s);
    assert forall|j: int| 0 <= j < k implies is_space(#[trigger] p[j]) by {}
    assert(p[k] == s[0]);
    lemma_lead_spaces(p, k);
    lemma_trail_spaces(s, 0);
    assert(s.take(s.len() as int) =~= s);
}

/// A text that starts and ends with other than white space is its own trim.
pub proof fn lemma_trimmed_unchanged(s: Seq<char>)
    requires
        s.len() > 0 ==> !is_space(s[0]) && !is_space(s[s.len() - 1]),
    ensures
        trimmed(s) == s,
{
    lemma_lead_spaces(s, 0);
    assert(s.skip(0) =~= s);
    lemma_trail_spaces(s, 0);
    assert(s.take(s.len() as int) =~= s);
}

/// The code line of a pair: no line feed, no final carriage return, and it
/// trims to the decimal text of the code.
pub proof fn lemma_code_line(i: int, w: nat)
    ensures
        no_line_feed(pad_left(int_text(i), w)),
        strip_cr(pad_left(int_text(i), w)) == pad_left(int_text(i), w),
        trimmed(pad_left(int_text(i), w)) == int_text(i),
{
    lemma_trimmed_padded_int(i, w);
    let s = int_text(i);
    let n: nat = if i < 0 { (-i) as nat } else { i as nat };
    let d = digits_in_base(n, 10);
    lemma_decimal_digits(n);
    let p = pad_left(s, w);
    assert forall|j: int| 0 <= j < s.len() implies s[j] == '-' || is_digit(#[trigger] s[j]) by {
        if i < 0 && j > 0 {
            assert(s[j] == d[j - 1]);
        }
    }
    assert forall|j: int| 0 <= j < p.len() implies p[j] != '\n' by {
        if s.len() < w && j < w - s.len() {
        } else {
            let off: int = if s.len() < w { w - s.len() } else { 0 };
            assert(p[j] == s[j - off]);
        }
    }
    assert(is_digit(d[d.len() - 1]));
    assert(p[p.len() - 1] == s[s.len() - 1]);
    if i < 0 {
        assert(s[s.len() - 1] == d[d.len() - 1]);
    }
}

/// Reads an optional sign and decimal digits; the magnitude is clamped to
/// `cap`, which the callers pick just above the range they accept.
fn parse_clamped(s: &[char], cap: i128) -> (r: Option<i128>)
    requires
        0 < cap < 0x1_0000_0000_0000_0000_0000_0000,
    ensures
        r is Some <==> int_of_text(s@) is Some,
        r matches Some(v) ==> ({
            let x = int_of_text(s@)->0;
            &&& (x >= cap ==> v == cap)
            &&& (x <= -cap ==> v == -cap)
            &&& (-cap < x < cap ==> v == x)
        }),
{
    let n = s.len();
    if n == 0 {
        return None;
    }
    let mut neg = false;
    let mut start: usize = 0;
    if s[0] == '+' || s[0] == '-' {
        neg = s[0] == '-';
        start = 1;
        if n == 1 {
            return None;
        }
    }
    let ghost d = s@.skip(start as int);
    let mut acc: i128 = 0;
    let mut i: usize = start;
    while i < n
        invariant
            start <= i <= n,
            n == s@.len(),
            d == s@.skip(start as int),
            n >= 1,
            (start == 1) == (s@[0] == '+' || s@[0] == '-'),
            start == 0 || start == 1,
            neg == (s@[0] == '-'),
            0 < cap < 0x1_0000_0000_0000_0000_0000_0000,
            all_digits(d.take(i - start)),
            acc == if digits_value(d.take(i - start)) >= cap {
                cap as int
            } else {
                digits_value(d.take(i - start))
            },
        decreases n - i,
    {
        let c = s[i];
        if !('0' <= c && c <= '9') {
            proof {
                assert(d[i - start] == c);
                if s@[0] == '+' || s@[0] == '-' {
                    assert(s@.drop_first() =~= d);
                } else {
                    assert(s@ =~= d);
                }
            }
            return None;
        }
        let dv = (c as u32 - '0' as u32) as i128;
        let ghost p = d.take(i - start);
        let ghost q = d.take(i + 1 - start);
        proof {
            assert(q.drop_last() =~= p);
            assert(q.last() == c);
            lemma_digits_nonneg(p);
        }
        if acc >= cap {
            acc = cap;
        } else {
            let next = acc * 10 + dv;
            if next >= cap {
                acc = cap;
            } else {
                acc = next;
            }
        }
        proof {
            assert forall|j: int| 0 <= j < q.len() implies is_digit(#[trigger] q[j]) by {
                if j < p.len() {
                    assert(q[j] == p[j]);
                }
            }
        }
        i = i + 1;
    }
    proof {
        assert(d.take(n - start) =~= d);
        if s@[0] == '+' || s@[0] == '-' {
            assert(s@.drop_first() =~= d);
            assert(start == 1);
        } else {
            assert(s@ =~= d);
        }
        lemma_digits_nonneg(d);
    }
    if neg {
        Some(-acc)
    } else {
        Some(acc)
    }
}

/// `str::parse::<i32>` on a character sequence.
pub fn parse_i32(s: &[char]) -> (r: Option<i32>)
    ensures
        r == (match int_of_text(s@) {
            Some(x) => if i32::MIN <= x <= i32::MAX {
                Some(x as i32)
            } else {
                None
            },
            None => None,
        }),
{
    match parse_clamped(s, 0x8000_0001) {
        Some(v) => if -0x8000_0000 <= v && v <= 0x7fff_ffff {
            Some(v as i32)
        } else {
            None
        },
        None => None,
    }
}

/// `str::parse::<i64>` on a character sequence.
pub fn parse_i64(s: &[char]) -> (r: Option<i64>)
    ensures
        r == (match int_of_text(s@) {
            Some(x) => if i64::MIN <= x <= i64::MAX {
                Some(x as i64)
            } else {
                None
            },
            None => None,
        }),
{
    match parse_clamped(s, 0x8000_0000_0000_0001) {
        Some(v) => if -0x8000_0000_0000_0000 <= v && v <= 0x7fff_ffff_ffff_ffff {
            Some(v as i64)
        } else {
            None
        },
        None => None,
    }
}

/// Character of a digit value below 16: `0`-`9`, then `A`-`F`.
pub open spec fn digit_char(d: nat) -> char {
    if d < 10 {
        ((48 + d) as u8) as char
    } else {
        ((55 + d) as u8) as char
    }
}

/// Digits of `n` in base `b`, most significant first, without leading zeros
/// (`"0"` for zero).
pub open spec fn digits_in_base(n: nat, b: nat) -> Seq<char>
    decreases n,
{
    if b < 2 || b > 16 || n < b {
        seq![digit_char(n % 16)]
    } else {
        proof {
            assert(n / b < n) by (nonlinear_arith)
                requires
                    b >= 2,
                    n >= b,
            ;
        }
        digits_in_base(n / b, b).push(digit_char(n % b))
    }
}

/// Decimal text of an integer, with a leading `-` when negative (`Display`).
pub open spec fn int_text(i: int) -> Seq<char> {
    if i < 0 {
        seq!['-'] + digits_in_base((-i) as nat, 10)
    } else {
        digits_in_base(i as nat, 10)
    }
}

/// Upper-case hexadecimal text of a number (`{:X}`).
pub open spec fn hex_text(n: nat) -> Seq<char> {
    digits_in_base(n, 16)
}

/// The value of a hexadecimal digit as `digit_char` writes it.
pub open spec fn hex_digit_value(c: char) -> int {
    if c <= '9' {
        (c as int) - 48
    } else {
        (c as int) - 55
    }
}

/// The value of a string of hexadecimal digits.
pub open spec fn hex_digits_value(s: Seq<char>) -> int
    decreases s.len(),
{
    if s.len() == 0 {
        0
    } else {
        hex_digits_value(s.drop_last()) * 16 + hex_digit_value(s.last())
    }
}

proof fn lemma_hex_digit_char(d: nat)
    requires
        d < 16,
    ensures
        hex_digit_value(digit_char(d)) == d,
{
    if d < 10 {
        assert(((48 + d) as u8) as int == 48 + d);
        assert((((48 + d) as u8) as char) as int == 48 + d);
    } else {
        assert(((55 + d) as u8) as int == 55 + d);
        assert((((55 + d) as u8) as char) as int == 55 + d);
    }
}

/// The hexadecimal text of a number reads back as the number.
pub proof fn lemma_hex_text_value(n: nat)
    ensures
        hex_digits_value(hex_text(n)) == n,
    decreases n,
{
    let s = digits_in_base(n, 16);
    if n < 16 {
        assert(n % 16 == n);
        lemma_hex_digit_char(n);
        assert(s.drop_last() =~= Seq::<char>::empty());
        assert(hex_digits_value(s) == hex_digits_value(s.drop_last()) * 16 + hex_digit_value(s.last()));
    } else {
        let q = n / 16;
        let r = n % 16;
        assert(q < n && q * 16 + r == n && r < 16) by (nonlinear_arith)
            requires
                n >= 16,
                q == n / 16,
                r == n % 16,
        ;
        lemma_hex_text_value(q);
        lemma_hex_digit_char(r);
        assert(s.drop_last() =~= digits_in_base(q, 16));
        assert(hex_digits_value(s) == hex_digits_value(digits_in_base(q, 16)) * 16 + hex_digit_value(digit_char(r)));
    }
}

/// Different numbers have different hexadecimal texts.
pub proof fn lemma_hex_text_injective(a: nat, b: nat)
    requires
        a != b,
    ensures
        hex_text(a) != hex_text(b),
{
    lemma_hex_text_value(a);
    lemma_hex_text_value(b);
}

/// The text right-aligned in a field of `w` characters (`{:>w}`).
pub open spec fn pad_left(s: Seq<char>, w: nat) -> Seq<char> {
    if s.len() < w {
        Seq::new((w - s.len()) as nat, |i: int| ' ') + s
    } else {
        s
    }
}

fn digit_char_exec(d: u64) -> (c: char)
    requires
        d < 16,
    ensures
        c == digit_char(d as nat),
{
    let b: u8 = d as u8;
    if b < 10 {
        (48u8 + b) as char
    } else {
        (55u8 + b) as char
    }
}

/// Digits of `n` in base `b` (2 to 16), most significant first.
pub fn digits_of(n: u64, b: u64) -> (v: Vec<char>)
    requires
        2 <= b <= 16,
    ensures
        v@ == digits_in_base(n as nat, b as nat),
{
    let mut acc: Vec<char> = Vec::new();
    let mut q: u64 = n;
    while q >= b
        invariant
            2 <= b <= 16,
            digits_in_base(n as nat, b as nat) == digits_in_base(q as nat, b as nat) + acc@,
        decreases q,
    {
        let d = digit_char_exec(q % b);
        let ghost old_acc = acc@;
        acc.insert(0, d);
        proof {
            assert(digits_in_base(q as nat, b as nat) == digits_in_base((q / b) as nat, b as nat).push(
                digit_char((q % b) as nat),
            ));
            assert(digits_in_base((q / b) as nat, b as nat).push(digit_char((q % b) as nat))
                + old_acc =~= digits_in_base((q / b) as nat, b as nat) + acc@);
        }
        q = q / b;
    }
    let first = digit_char_exec(q % 16);
    let ghost old_acc = acc@;
    acc.insert(0, first);
    proof {
        assert(q % 16 == q);
        assert(digits_in_base(q as nat, b as nat) == seq![digit_char(q as nat)]);
        assert(seq![digit_char(q as nat)] + old_acc =~= acc@);
    }
    acc
}

/// Decimal text of an `i64`, as `Display` writes it.
pub fn int_to_chars(i: i64) -> (v: Vec<char>)
    ensures
        v@ == int_text(i as int),
{
    if i < 0 {
        let m: u64 = if i == i64::MIN {
            0x8000_0000_0000_0000u64
        } else {
            (-i) as u64
        };
        let d = digits_of(m, 10);
        let mut v: Vec<char> = Vec::new();
        v.push('-');
        let mut k: usize = 0;
        while k < d.len()
            invariant
                k <= d@.len(),
                v@ == seq!['-'] + d@.take(k as int),
            decreases d@.len() - k,
        {
            v.push(d[k]);
            assert(seq!['-'] + d@.take(k as int).push(d@[k as int]) =~= seq!['-'] + d@.take(
                k + 1,
            ));
            k = k + 1;
        }
        assert(d@.take(d@.len() as int) =~= d@);
        v
    } else {
        digits_of(i as u64, 10)
    }
}

/// The characters right-aligned in a field of `w` characters.
pub fn pad_left_chars(s: Vec<char>, w: usize) -> (v: Vec<char>)
    ensures
        v@ == pad_left(s@, w as nat),
{
    if s.len() < w {
        let mut v: Vec<char> = Vec::new();
        let fill = w - s.len();
        let mut k: usize = 0;
        while k < fill
            invariant
                k <= fill,
                v@ == Seq::new(k as nat, |i: int| ' '),
            decreases fill - k,
        {
            v.push(' ');
            assert(Seq::new(k as nat, |i: int| ' ').push(' ') =~= Seq::new(
                (k + 1) as nat,
                |i: int| ' ',
            ));
            k = k + 1;
        }
        let mut j: usize = 0;
        while j < s.len()
            invariant
                j <= s@.len(),
                fill == w - s@.len(),
                v@ == Seq::new(fill as nat, |i: int| ' ') + s@.take(j as int),
            decreases s@.len() - j,
        {
            v.push(s[j]);
            assert(Seq::new(fill as nat, |i: int| ' ') + s@.take(j as int).push(s@[j as int])
                =~= Seq::new(fill as nat, |i: int| ' ') + s@.take(j + 1));
            j = j + 1;
        }
        assert(s@.take(s@.len() as int) =~= s@);
        v
    } else {
        s
    }
}

/// The pieces of a text between line feeds, as `split('\n')` gives them.
pub open spec fn segments(s: Seq<char>) -> Seq<Seq<char>>
    decreases s.len(),
{
    if s.len() == 0 {
        seq![Seq::<char>::empty()]
    } else if s.last() == '\n' {
        segments(s.drop_last()).push(Seq::<char>::empty())
    } else {
        let t = segments(s.drop_last());
        t.update(t.len() - 1, t.last().push(s.last()))
    }
}

proof fn lemma_segments_nonempty(s: Seq<char>)
    ensures
        segments(s).len() >= 1,
    decreases s.len(),
{
    if s.len() > 0 {
        lemma_segments_nonempty(s.drop_last());
    }
}

/// A line without the carriage return that ended it.
pub open spec fn strip_cr(l: Seq<char>) -> Seq<char> {
    if l.len() > 0 && l.last() == '\r' {
        l.drop_last()
    } else {
        l
    }
}

/// The lines of a text as `BufRead::lines` reads them: split at line feeds,
/// a carriage return before a line feed dropped, and no empty last line
/// after a final line feed.
pub open spec fn text_lines(s: Seq<char>) -> Seq<Seq<char>> {
    let seg = segments(s);
    let body = seg.take(seg.len() - 1).map_values(|l: Seq<char>| strip_cr(l));
    if seg.last().len() == 0 {
        body
    } else {
        body.push(seg.last())
    }
}

/// Whether a text holds no line feed.
pub open spec fn no_line_feed(l: Seq<char>) -> bool {
    forall|j: int| 0 <= j < l.len() ==> l[j] != '\n'
}

proof fn lemma_segments_single(t: Seq<char>)
    requires
        no_line_feed(t),
    ensures
        segments(t) == seq![t],
    decreases t.len(),
{
    if t.len() > 0 {
        lemma_segments_single(t.drop_last());
        assert(t.last() == t[t.len() - 1]);
        assert(t.drop_last().push(t.last()) =~= t);
        assert(seq![t.drop_last()].update(0, t.drop_last().push(t.last())) =~= seq![t]);
    } else {
        assert(t =~= Seq::<char>::empty());
    }
}

proof fn lemma_segments_after_line_feed(a: Seq<char>, t: Seq<char>)
    requires
        no_line_feed(t),
    ensures
        segments(a.push('\n') + t) == segments(a).push(t),
    decreases t.len(),
{
    let u = a.push('\n') + t;
    if t.len() == 0 {
        assert(u =~= a.push('\n'));
        assert(u.drop_last() =~= a);
        assert(t =~= Seq::<char>::empty());
        assert(u.last() == '\n');
    } else {
        lemma_segments_after_line_feed(a, t.drop_last());
        assert(u.drop_last() =~= a.push('\n') + t.drop_last());
        assert(u.last() == t.last());
        assert(t.last() == t[t.len() - 1]);
        assert(u.last() != '\n');
        assert(u.len() > 0);
        let sa = segments(a).push(t.drop_last());
        assert(t.drop_last().push(t.last()) =~= t);
        assert(sa.update(sa.len() - 1, sa.last().push(t.last())) =~= segments(a).push(t));
    }
}

proof fn lemma_segments_joined(ls: Seq<Seq<char>>)
    requires
        ls.len() > 0,
        forall|k: int| 0 <= k < ls.len() ==> no_line_feed(#[trigger] ls[k]),
    ensures
        segments(joined(ls, '\n')) == ls,
    decreases ls.len(),
{
    if ls.len() == 1 {
        lemma_segments_single(ls[0]);
        assert(seq![ls[0]] =~= ls);
    } else {
        let front = ls.drop_last();
        assert forall|k: int| 0 <= k < front.len() implies no_line_feed(#[trigger] front[k]) by {
            assert(front[k] == ls[k]);
        }
        lemma_segments_joined(front);
        assert(no_line_feed(ls[ls.len() - 1]));
        lemma_segments_after_line_feed(joined(front, '\n'), ls.last());
        assert(front.push(ls.last()) =~= ls);
    }
}

/// Lines joined with line feeds are read back as the same lines, when no
/// line holds a line feed, none but the last ends with a carriage return,
/// and the last is not empty.
pub proof fn lemma_text_lines_joined(ls: Seq<Seq<char>>)
    requires
        ls.len() > 0,
        forall|k: int| 0 <= k < ls.len() ==> no_line_feed(#[trigger] ls[k]),
        forall|k: int| 0 <= k < ls.len() - 1 ==> strip_cr(#[trigger] ls[k]) == ls[k],
        ls.last().len() > 0,
    ensures
        text_lines(joined(ls, '\n')) == ls,
{
    lemma_segments_joined(ls);
    let body = ls.take(ls.len() - 1).map_values(|l: Seq<char>| strip_cr(l));
    assert(body =~= ls.take(ls.len() - 1)) by {
        assert forall|k: int| 0 <= k < ls.len() - 1 implies body[k] == ls.take(ls.len() - 1)[k] by {
            assert(strip_cr(ls[k]) == ls[k]);
        }
    }
    assert(ls.take(ls.len() - 1).push(ls.last()) =~= ls);
}

/// The character views of a list of character vectors.
pub open spec fn rows(v: Seq<Vec<char>>) -> Seq<Seq<char>> {
    v.map_values(|x: Vec<char>| x@)
}

fn strip_cr_chars(l: Vec<char>) -> (r: Vec<char>)
    ensures
        r@ == strip_cr(l@),
{
    let mut l = l;
    if l.len() > 0 && l[l.len() - 1] == '\r' {
        l.pop();
    }
    l
}

/// The lines of a text, as `BufRead::lines` reads them.
pub fn lines_of(text: &str) -> (v: Vec<Vec<char>>)
    ensures
        rows(v@) == text_lines(text@),
{
    let cs = chars_of(text);
    let mut done: Vec<Vec<char>> = Vec::new();
    let mut cur: Vec<char> = Vec::new();
    let mut i: usize = 0;
    while i < cs.len()
        invariant
            i <= cs@.len(),
            ({
                let seg = segments(cs@.take(i as int));
                &&& seg.len() >= 1
                &&& rows(done@) == seg.take(seg.len() - 1).map_values(|l: Seq<char>| strip_cr(l))
                &&& cur@ == seg.last()
            }),
        decreases cs@.len() - i,
    {
        let c = cs[i];
        let ghost p = cs@.take(i as int);
        let ghost q = cs@.take(i + 1);
        proof {
            assert(q.drop_last() =~= p);
            assert(q.last() == c);
            lemma_segments_nonempty(p);
        }
        if c == '\n' {
            let ghost old_rows = rows(done@);
            let line = strip_cr_chars(cur);
            done.push(line);
            cur = Vec::new();
            proof {
                let sp = segments(p);
                let sq = segments(q);
                assert(sq == sp.push(Seq::<char>::empty()));
                assert(sq.take(sq.len() - 1) =~= sp);
                assert(sp =~= sp.take(sp.len() - 1).push(sp.last()));
                assert(rows(done@) =~= old_rows.push(strip_cr(sp.last())));
                assert(rows(done@) =~= sq.take(sq.len() - 1).map_values(
                    |l: Seq<char>| strip_cr(l),
                ));
            }
        } else {
            cur.push(c);
            proof {
                let sp = segments(p);
                let sq = segments(q);
                assert(sq == sp.update(sp.len() - 1, sp.last().push(c)));
                assert(sq.take(sq.len() - 1) =~= sp.take(sp.len() - 1));
            }
        }
        i = i + 1;
    }
    assert(cs@.take(cs@.len() as int) =~= cs@);
    if cur.len() > 0 {
        done.push(cur);
        proof {
            let seg = segments(cs@);
            assert(rows(done@) =~= seg.take(seg.len() - 1).map_values(|l: Seq<char>| strip_cr(l)).push(
                seg.last(),
            ));
        }
    }
    done
}

/// Texts joined with a separator between neighbours (`join`).
pub open spec fn joined(lines: Seq<Seq<char>>, sep: char) -> Seq<char>
    decreases lines.len(),
{
    if lines.len() == 0 {
        Seq::<char>::empty()
    } else if lines.len() == 1 {
        lines[0]
    } else {
        joined(lines.drop_last(), sep).push(sep) + lines.last()
    }
}

/// The strings joined with a separator character between neighbours.
pub fn join_strings(lines: &Vec<String>, sep: char) -> (r: String)
    ensures
        r@ == joined(lines@.map_values(|x: String| x@), sep),
{
    let ghost views = lines@.map_values(|x: String| x@);
    let mut acc: Vec<char> = Vec::new();
    let mut i: usize = 0;
    while i < lines.len()
        invariant
            i <= lines@.len(),
            views == lines@.map_values(|x: String| x@),
            acc@ == joined(views.take(i as int), sep),
        decreases lines@.len() - i,
    {
        let ghost before = acc@;
        if i > 0 {
            acc.push(sep);
        }
        let cs = chars_of(lines[i].as_str());
        let mut k: usize = 0;
        let ghost mid = acc@;
        while k < cs.len()
            invariant
                k <= cs@.len(),
                acc@ == mid + cs@.take(k as int),
            decreases cs@.len() - k,
        {
            acc.push(cs[k]);
            assert(mid + cs@.take(k as int).push(cs@[k as int]) =~= mid + cs@.take(k + 1));
            k = k + 1;
        }
        proof {
            assert(cs@.take(cs@.len() as int) =~= cs@);
            let t = views.take(i + 1);
            assert(t.drop_last() =~= views.take(i as int));
            assert(t.last() == lines@[i as int]@);
            if i == 0 {
                assert(acc@ =~= t[0]);
            } else {
                assert(acc@ =~= before.push(sep) + t.last());
            }
        }
        i = i + 1;
    }
    assert(views.take(lines@.len() as int) =~= views);
    string_of(acc.as_slice())
}

/// The `u64` that `str::parse` reads from a text: an optional `+` and at
/// least one ASCII digit, within range.
pub open spec fn u64_of_text(s: Seq<char>) -> Option<u64> {
    if s.len() > 0 && s[0] == '-' {
        None
    } else {
        match int_of_text(s) {
            Some(x) => if 0 <= x <= u64::MAX {
                Some(x as u64)
            } else {
                None
            },
            None => None,
        }
    }
}

/// `str::parse::<u64>` on a character sequence.
pub fn parse_u64(s: &[char]) -> (r: Option<u64>)
    ensures
        r == u64_of_text(s@),
{
    if s.len() > 0 && s[0] == '-' {
        return None;
    }
    match parse_clamped(s, 0x1_0000_0000_0000_0001) {
        Some(v) => if 0 <= v && v <= 0xffff_ffff_ffff_ffff {
            Some(v as u64)
        } else {
            None
        },
        None => None,
    }
}

/// The pieces of a text between occurrences of a separator (`split`).
pub open spec fn pieces(s: Seq<char>, sep: char) -> Seq<Seq<char>>
    decreases s.len(),
{
    if s.len() == 0 {
        seq![Seq::<char>::empty()]
    } else if s.last() == sep {
        pieces(s.drop_last(), sep).push(Seq::<char>::empty())
    } else {
        let t = pieces(s.drop_last(), sep);
        t.update(t.len() - 1, t.last().push(s.last()))
    }
}

proof fn lemma_pieces_nonempty(s: Seq<char>, sep: char)
    ensures
        pieces(s, sep).len() >= 1,
    decreases s.len(),
{
    if s.len() > 0 {
        lemma_pieces_nonempty(s.drop_last(), sep);
    }
}

/// Splits a character sequence at every separator.
pub fn split_chars(s: &[char], sep: char) -> (v: Vec<Vec<char>>)
    ensures
        rows(v@) == pieces(s@, sep),
{
    let mut done: Vec<Vec<char>> = Vec::new();
    let mut cur: Vec<char> = Vec::new();
    let mut i: usize = 0;
    while i < s.len()
        invariant
            i <= s@.len(),
            ({
                let ps = pieces(s@.take(i as int), sep);
                &&& ps.len() >= 1
                &&& rows(done@) == ps.take(ps.len() - 1)
                &&& cur@ == ps.last()
            }),
        decreases s@.len() - i,
    {
        let c = s[i];
        let ghost p = s@.take(i as int);
        let ghost q = s@.take(i + 1);
        proof {
            assert(q.drop_last() =~= p);
            assert(q.last() == c);
            lemma_pieces_nonempty(p, sep);
        }
        if c == sep {
            let ghost old_rows = rows(done@);
            done.push(cur);
            cur = Vec::new();
            proof {
                let sp = pieces(p, sep);
                let sq = pieces(q, sep);
                assert(sq == sp.push(Seq::<char>::empty()));
                assert(sq.take(sq.len() - 1) =~= sp);
                assert(sp =~= sp.take(sp.len() - 1).push(sp.last()));
                assert(rows(done@) =~= old_rows.push(sp.last()));
            }
        } else {
            cur.push(c);
            proof {
                let sp = pieces(p, sep);
                let sq = pieces(q, sep);
                assert(sq == sp.update(sp.len() - 1, sp.last().push(c)));
                assert(sq.take(sq.len() - 1) =~= sp.take(sp.len() - 1));
            }
        }
        i = i + 1;
    }
    assert(s@.take(s@.len() as int) =~= s@);
    let ghost old_rows = rows(done@);
    done.push(cur);
    proof {
        let ps = pieces(s@, sep);
        assert(rows(done@) =~= old_rows.push(ps.last()));
        assert(ps =~= ps.take(ps.len() - 1).push(ps.last()));
    }
    done
}

/// Every occurrence of a non-empty pattern replaced, scanning left to
/// right without overlaps (`str::replace`).
pub open spec fn replaced(s: Seq<char>, pat: Seq<char>, rep: Seq<char>) -> Seq<char>
    recommends
        pat.len() > 0,
    decreases s.len(),
{
    if pat.len() == 0 || s.len() < pat.len() {
        s
    } else if s.take(pat.len() as int) == pat {
        rep + replaced(s.skip(pat.len() as int), pat, rep)
    } else {
        seq![s[0]] + replaced(s.drop_first(), pat, rep)
    }
}

/// Replaces every occurrence of a non-empty pattern.
pub fn replace_chars(s: &[char], pat: &[char], rep: &[char]) -> (r: Vec<char>)
    requires
        pat@.len() > 0,
    ensures
        r@ == replaced(s@, pat@, rep@),
{
    let mut out: Vec<char> = Vec::new();
    let mut i: usize = 0;
    let n = s.len();
    let m = pat.len();
    assert(s@.skip(0) =~= s@);
    assert(out@ + s@ =~= s@);
    while i < n
        invariant
            i <= n,
            n == s@.len(),
            m == pat@.len(),
            m > 0,
            out@ + replaced(s@.skip(i as int), pat@, rep@) == replaced(s@, pat@, rep@),
        decreases n - i,
    {
        let ghost rest = s@.skip(i as int);
        let mut matches = n - i >= m;
        let mut k: usize = 0;
        while matches && k < m
            invariant
                k <= m,
                m == pat@.len(),
                n == s@.len(),
                i < n,
                matches ==> n - i >= m,
                matches ==> forall|j: int| 0 <= j < k ==> s@[i + j] == pat@[j],
                !matches ==> !(n - i >= m && s@.skip(i as int).take(m as int) == pat@),
            decreases m - k,
        {
            if s[i + k] != pat[k] {
                proof {
                    assert(s@.skip(i as int).take(m as int)[k as int] == s@[i + k]);
                }
                matches = false;
            }
            k = k + 1;
        }
        if matches {
            assert(rest.take(m as int) =~= pat@);
            let mut j: usize = 0;
            let ghost before = out@;
            while j < rep.len()
                invariant
                    j <= rep@.len(),
                    out@ == before + rep@.take(j as int),
                decreases rep@.len() - j,
            {
                out.push(rep[j]);
                assert(before + rep@.take(j as int).push(rep@[j as int]) =~= before + rep@.take(
                    j + 1,
                ));
                j = j + 1;
            }
            proof {
                assert(rep@.take(rep@.len() as int) =~= rep@);
                assert(rest.skip(m as int) =~= s@.skip(i + m));
                assert(before + (rep@ + replaced(rest.skip(m as int), pat@, rep@)) =~= out@
                    + replaced(s@.skip(i + m), pat@, rep@));
            }
            i = i + m;
        } else {
            let ghost before = out@;
            out.push(s[i]);
            proof {
                assert(rest.drop_first() =~= s@.skip(i + 1));
                assert(rest[0] == s@[i as int]);
                assert(before + (seq![rest[0]] + replaced(rest.drop_first(), pat@, rep@)) =~= out@
                    + replaced(s@.skip(i + 1), pat@, rep@));
            }
            i = i + 1;
        }
    }
    proof {
        assert(replaced(s@.skip(n as int), pat@, rep@) =~= Seq::<char>::empty());
        assert(out@ + Seq::<char>::empty() =~= out@);
    }
    out
}

} // verus!


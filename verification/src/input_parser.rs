//! The shapes of coordinate input typed on the command line.
//!
//! Absolute coordinates `100,50`, relative coordinates `@100,50`, polar
//! input `@100<45` (relative) or `100<45` (length and angle), an angle
//! `<45`, or a plain number. The split here finds which form a text has
//! and cuts out its number texts; reading the numbers is done outside.

use vstd::prelude::*;
use crate::text::{chars_of, string_of, trim_chars, trimmed};

verus! {

/// Why input could not be read.
#[derive(Debug, Clone, PartialEq, Eq)]
pub enum ParseError {
    InvalidFormat(String),
    MissingValue(String),
}

/// Reads coordinate input.
pub struct InputParser;

/// The form of a piece of input, with the texts of its numbers.
#[derive(Debug, Clone, PartialEq, Eq)]
pub enum InputSyntax {
    /// `<angle`, also `@<angle`.
    Angle { angle: String },
    /// `length<angle`, relative when it starts with `@`.
    LengthAngle { relative: bool, length: String, angle: String },
    /// `x,y`, relative when it starts with `@`.
    Coordinates { relative: bool, x: String, y: String },
    /// Anything else: a plain number, or nothing readable.
    Number { text: String },
}

/// Position of the last occurrence of a character.
pub open spec fn is_last_index(s: Seq<char>, c: char, p: int) -> bool {
    0 <= p < s.len() && s[p] == c && forall|j: int| p < j < s.len() ==> s[j] != c
}

/// Position of the first occurrence of a character.
pub open spec fn is_first_index(s: Seq<char>, c: char, p: int) -> bool {
    0 <= p < s.len() && s[p] == c && forall|j: int| 0 <= j < p ==> s[j] != c
}

/// Whether a character occurs.
pub open spec fn has_char(s: Seq<char>, c: char) -> bool {
    exists|j: int| 0 <= j < s.len() && s[j] == c
}

/// The text without a leading `@`, and whether there was one.
pub open spec fn strip_at(s: Seq<char>) -> (bool, Seq<char>) {
    if s.len() > 0 && s[0] == '@' {
        (true, s.drop_first())
    } else {
        (false, s)
    }
}

fn last_index(s: &[char], c: char) -> (r: Option<usize>)
    ensures
        match r {
            Some(p) => is_last_index(s@, c, p as int),
            None => !has_char(s@, c),
        },
{
    let mut i: usize = s.len();
    while i > 0
        invariant
            i <= s@.len(),
            forall|j: int| i <= j < s@.len() ==> s@[j] != c,
        decreases i,
    {
        if s[i - 1] == c {
            return Some(i - 1);
        }
        i = i - 1;
    }
    None
}

fn first_index(s: &[char], c: char) -> (r: Option<usize>)
    ensures
        match r {
            Some(p) => is_first_index(s@, c, p as int),
            None => !has_char(s@, c),
        },
{
    let mut i: usize = 0;
    while i < s.len()
        invariant
            i <= s@.len(),
            forall|j: int| 0 <= j < i ==> s@[j] != c,
        decreases s@.len() - i,
    {
        if s[i] == c {
            return Some(i);
        }
        i = i + 1;
    }
    None
}

fn slice_text(s: &[char], from: usize, to: usize) -> (r: String)
    requires
        from <= to <= s@.len(),
    ensures
        r@ == s@.subrange(from as int, to as int),
{
    let mut v: Vec<char> = Vec::new();
    let mut i: usize = from;
    while i < to
        invariant
            from <= i <= to <= s@.len(),
            v@ == s@.subrange(from as int, i as int),
        decreases to - i,
    {
        v.push(s[i]);
        assert(v@ =~= s@.subrange(from as int, i + 1));
        i = i + 1;
    }
    string_of(v.as_slice())
}

impl InputParser {
    /// The form of some input, trimmed: an empty text is refused; a text
    /// with `<` is polar, split at its last `<`; else a text with `,` is
    /// coordinates, split at its first `,`; anything else is a number.
    pub fn split_input(input: &str) -> (r: Result<InputSyntax, ParseError>)
        ensures
            ({
                let t = trimmed(input@);
                if t.len() == 0 {
                    r matches Err(ParseError::InvalidFormat(m)) && m@ == "Empty input"@
                } else if has_char(t, '<') {
                    exists|p: int|
                        is_last_index(t, '<', p) && {
                            let (rel, len) = strip_at(t.take(p));
                            let ang = t.skip(p + 1);
                            if len.len() == 0 {
                                r matches Ok(InputSyntax::Angle { angle }) && angle@ == ang
                            } else {
                                r matches Ok(InputSyntax::LengthAngle { relative, length, angle })
                                    && relative == rel && length@ == len && angle@ == ang
                            }
                        }
                } else if has_char(t, ',') {
                    exists|p: int|
                        is_first_index(t, ',', p) && {
                            let (rel, xs) = strip_at(t.take(p));
                            r matches Ok(InputSyntax::Coordinates { relative, x, y }) && relative
                                == rel && x@ == xs && y@ == t.skip(p + 1)
                        }
                } else {
                    r matches Ok(InputSyntax::Number { text }) && text@ == t
                }
            }),
    {
        let cs = chars_of(input);
        let t = trim_chars(cs.as_slice());
        let n = t.len();
        if n == 0 {
            return Err(ParseError::InvalidFormat("Empty input".to_string()));
        }
        if let Some(p) = last_index(t.as_slice(), '<') {
            let angle = slice_text(t.as_slice(), p + 1, n);
            let relative = p > 0 && t[0] == '@';
            let start: usize = if relative {
                1
            } else {
                0
            };
            proof {
                let (rel, len) = strip_at(t@.take(p as int));
                assert(rel == relative);
                if relative {
                    assert(len =~= t@.subrange(1, p as int));
                } else {
                    assert(len =~= t@.subrange(0, p as int));
                }
                assert(t@.skip(p + 1) =~= t@.subrange(p + 1, n as int));
            }
            if start == p {
                return Ok(InputSyntax::Angle { angle });
            }
            let length = slice_text(t.as_slice(), start, p);
            return Ok(InputSyntax::LengthAngle { relative, length, angle });
        }
        if let Some(p) = first_index(t.as_slice(), ',') {
            let y = slice_text(t.as_slice(), p + 1, n);
            let relative = p > 0 && t[0] == '@';
            let start: usize = if relative {
                1
            } else {
                0
            };
            let x = slice_text(t.as_slice(), start, p);
            proof {
                let (rel, xs) = strip_at(t@.take(p as int));
                assert(rel == relative);
                if relative {
                    assert(xs =~= t@.subrange(1, p as int));
                } else {
                    assert(xs =~= t@.subrange(0, p as int));
                }
                assert(t@.skip(p + 1) =~= t@.subrange(p + 1, n as int));
            }
            return Ok(InputSyntax::Coordinates { relative, x, y });
        }
        Ok(InputSyntax::Number { text: string_of(t.as_slice()) })
    }
}

} // verus!

//! Text helpers for the line protocol: trimming, splitting at the field
//! separator and the shape of a user name.
//!
//! A line is modelled as the sequence of its characters. The executable
//! functions read a line once into a vector of characters and work on
//! ranges of it.

use vstd::prelude::*;
use vstd::string::*;

verus! {

/// The separator between the fields of a line.
pub const SEPARATOR: char = '|';

/// Whether `c` is white space in the sense of Unicode's `White_Space`
/// property, which is what trimming removes.
pub open spec fn is_whitespace(c: char) -> bool {
    ||| c == ' '
    ||| ('\u{9}' <= c && c <= '\u{D}')
    ||| c == '\u{85}'
    ||| c == '\u{A0}'
    ||| c == '\u{1680}'
    ||| ('\u{2000}' <= c && c <= '\u{200A}')
    ||| c == '\u{2028}'
    ||| c == '\u{2029}'
    ||| c == '\u{202F}'
    ||| c == '\u{205F}'
    ||| c == '\u{3000}'
}

/// Whether `c` is one of the letters `a` to `z` or `A` to `Z`.
pub open spec fn is_ascii_alphabetic(c: char) -> bool {
    ('a' <= c && c <= 'z') || ('A' <= c && c <= 'Z')
}

/// `s` without its leading white space.
pub open spec fn trim_start(s: Seq<char>) -> Seq<char>
    decreases s.len(),
{
    if s.len() > 0 && is_whitespace(s[0]) {
        trim_start(s.subrange(1, s.len() as int))
    } else {
        s
    }
}

/// `s` without its trailing white space.
pub open spec fn trim_end(s: Seq<char>) -> Seq<char>
    decreases s.len(),
{
    if s.len() > 0 && is_whitespace(s[s.len() - 1]) {
        trim_end(s.subrange(0, s.len() - 1))
    } else {
        s
    }
}

/// `s` without the white space at either end.
pub open spec fn trim(s: Seq<char>) -> Seq<char> {
    trim_end(trim_start(s))
}

/// The position of the first separator in `s`, or the length of `s` where
/// it holds none.
pub open spec fn separator_index(s: Seq<char>) -> int
    decreases s.len(),
{
    if s.len() == 0 || s[0] == SEPARATOR {
        0
    } else {
        1 + separator_index(s.subrange(1, s.len() as int))
    }
}

/// The two trimmed fields on either side of the first separator of `s`,
/// or `None` where `s` holds no separator.
pub open spec fn split_pair(s: Seq<char>) -> Option<(Seq<char>, Seq<char>)> {
    let at = separator_index(s);
    if at < s.len() {
        Some((trim(s.subrange(0, at)), trim(s.subrange(at + 1, s.len() as int))))
    } else {
        None
    }
}

/// The verb and the payload of a line: the line is trimmed, then split at
/// its first separator.
pub open spec fn split_line(line: Seq<char>) -> Option<(Seq<char>, Seq<char>)> {
    split_pair(trim(line))
}

/// A user name is valid when it is not empty and made of ASCII letters only.
pub open spec fn valid_username(name: Seq<char>) -> bool {
    name.len() > 0 && forall|i: int| 0 <= i < name.len() ==> is_ascii_alphabetic(#[trigger] name[i])
}

/// Whether the executable pair `found` stands for the model pair `wanted`.
pub open spec fn pair_matches(
    found: Option<(String, String)>,
    wanted: Option<(Seq<char>, Seq<char>)>,
) -> bool {
    match found {
        Some((left, right)) => wanted == Some((left@, right@)),
        None => wanted is None,
    }
}

proof fn lemma_trim_start_at(s: Seq<char>, k: int)
    requires
        0 <= k <= s.len(),
        forall|j: int| 0 <= j < k ==> is_whitespace(#[trigger] s[j]),
        k == s.len() || !is_whitespace(s[k]),
    ensures
        trim_start(s) == s.subrange(k, s.len() as int),
    decreases k,
{
    if k == 0 {
    } else {
        let rest = s.subrange(1, s.len() as int);
        assert forall|j: int| 0 <= j < k - 1 implies is_whitespace(#[trigger] rest[j]) by {
        }
        lemma_trim_start_at(rest, k - 1);
    }
}

proof fn lemma_trim_end_at(s: Seq<char>, k: int)
    requires
        0 <= k <= s.len(),
        forall|j: int| k <= j < s.len() ==> is_whitespace(#[trigger] s[j]),
        k == 0 || !is_whitespace(s[k - 1]),
    ensures
        trim_end(s) == s.subrange(0, k),
    decreases s.len() - k,
{
    if k == s.len() {
    } else {
        let rest = s.subrange(0, s.len() - 1);
        assert forall|j: int| k <= j < rest.len() implies is_whitespace(#[trigger] rest[j]) by {
        }
        lemma_trim_end_at(rest, k);
    }
}

proof fn lemma_separator_at(s: Seq<char>, k: int)
    requires
        0 <= k <= s.len(),
        forall|j: int| 0 <= j < k ==> #[trigger] s[j] != SEPARATOR,
        k == s.len() || s[k] == SEPARATOR,
    ensures
        separator_index(s) == k,
    decreases k,
{
    if k > 0 {
        let rest = s.subrange(1, s.len() as int);
        assert forall|j: int| 0 <= j < k - 1 implies #[trigger] rest[j] != SEPARATOR by {
        }
        lemma_separator_at(rest, k - 1);
    }
}

fn whitespace(c: char) -> (b: bool)
    ensures
        b == is_whitespace(c),
{
    c == ' ' || ('\u{9}' <= c && c <= '\u{D}') || c == '\u{85}' || c == '\u{A0}' || c == '\u{1680}'
        || ('\u{2000}' <= c && c <= '\u{200A}') || c == '\u{2028}' || c == '\u{2029}' || c
        == '\u{202F}' || c == '\u{205F}' || c == '\u{3000}'
}

fn ascii_alphabetic(c: char) -> (b: bool)
    ensures
        b == is_ascii_alphabetic(c),
{
    ('a' <= c && c <= 'z') || ('A' <= c && c <= 'Z')
}

/// The characters of `s`, in order.
pub fn chars_of(s: &str) -> (out: Vec<char>)
    ensures
        out@ == s@,
{
    let mut out: Vec<char> = Vec::new();
    for c in it: s.chars()
        invariant
            it.seq() == s@,
            out@ == it.seq().subrange(0, it.index()),
    {
        out.push(c);
    }
    out
}

/// The bounds of what trimming leaves of the characters `from..to`.
fn trim_range(cs: &Vec<char>, from: usize, to: usize) -> (r: (usize, usize))
    requires
        from <= to <= cs.len(),
    ensures
        from <= r.0 <= r.1 <= to,
        cs@.subrange(r.0 as int, r.1 as int) == trim(cs@.subrange(from as int, to as int)),
{
    let ghost whole = cs@.subrange(from as int, to as int);
    let mut start: usize = from;
    while start < to && whitespace(cs[start])
        invariant
            from <= start <= to <= cs.len(),
            forall|j: int| from <= j < start ==> is_whitespace(#[trigger] cs@[j]),
        decreases to - start,
    {
        start += 1;
    }
    let mut end: usize = to;
    while end > start && whitespace(cs[end - 1])
        invariant
            start <= end <= to <= cs.len(),
            forall|j: int| end <= j < to ==> is_whitespace(#[trigger] cs@[j]),
        decreases end,
    {
        end -= 1;
    }
    proof {
        let front = whole.subrange(start - from, whole.len() as int);
        assert forall|j: int| 0 <= j < start - from implies is_whitespace(#[trigger] whole[j]) by {
            assert(whole[j] == cs@[from + j]);
        }
        lemma_trim_start_at(whole, start - from);
        assert forall|j: int| end - start <= j < front.len() implies is_whitespace(
            #[trigger] front[j],
        ) by {
            assert(front[j] == cs@[start + j]);
        }
        lemma_trim_end_at(front, end - start);
        assert(front.subrange(0, end - start) =~= cs@.subrange(start as int, end as int));
    }
    (start, end)
}

/// The position of the first separator among the characters `from..to`, or
/// `to` where there is none.
fn find_separator(cs: &Vec<char>, from: usize, to: usize) -> (at: usize)
    requires
        from <= to <= cs.len(),
    ensures
        from <= at <= to,
        at - from == separator_index(cs@.subrange(from as int, to as int)),
{
    let ghost whole = cs@.subrange(from as int, to as int);
    let mut at: usize = from;
    while at < to && cs[at] != SEPARATOR
        invariant
            from <= at <= to <= cs.len(),
            forall|j: int| from <= j < at ==> #[trigger] cs@[j] != SEPARATOR,
        decreases to - at,
    {
        at += 1;
    }
    proof {
        assert forall|j: int| 0 <= j < at - from implies #[trigger] whole[j] != SEPARATOR by {
            assert(whole[j] == cs@[from + j]);
        }
        lemma_separator_at(whole, at - from);
    }
    at
}

/// Splits the characters `from..to` of `line` at their first separator and
/// trims both fields.
fn split_range(line: &str, cs: &Vec<char>, from: usize, to: usize) -> (found: Option<
    (String, String),
>)
    requires
        cs@ == line@,
        from <= to <= cs.len(),
    ensures
        pair_matches(found, split_pair(line@.subrange(from as int, to as int))),
{
    let ghost whole = cs@.subrange(from as int, to as int);
    let at = find_separator(cs, from, to);
    if at < to {
        let (a, b) = trim_range(cs, from, at);
        let (c, d) = trim_range(cs, at + 1, to);
        proof {
            assert(whole.subrange(0, at - from) =~= cs@.subrange(from as int, at as int));
            assert(whole.subrange(at - from + 1, whole.len() as int) =~= cs@.subrange(
                at + 1,
                to as int,
            ));
        }
        let left = line.substring_char(a, b).to_owned();
        let right = line.substring_char(c, d).to_owned();
        Some((left, right))
    } else {
        None
    }
}

/// Splits `text` at its first separator into two trimmed fields.
pub fn split_fields(text: &str) -> (found: Option<(String, String)>)
    ensures
        pair_matches(found, split_pair(text@)),
{
    let cs = chars_of(text);
    assert(text@.subrange(0, text@.len() as int) =~= text@);
    split_range(text, &cs, 0, cs.len())
}

/// Splits a line into its verb and its payload.
pub fn split_command(line: &str) -> (found: Option<(String, String)>)
    ensures
        pair_matches(found, split_line(line@)),
{
    let cs = chars_of(line);
    assert(line@.subrange(0, line@.len() as int) =~= line@);
    let (from, to) = trim_range(&cs, 0, cs.len());
    split_range(line, &cs, from, to)
}

/// Whether `username` may be registered: it is not empty and holds ASCII
/// letters only.
pub fn is_username_valid(username: &str) -> (valid: bool)
    ensures
        valid == valid_username(username@),
{
    let cs = chars_of(username);
    if cs.len() == 0 {
        return false;
    }
    let mut i: usize = 0;
    while i < cs.len()
        invariant
            i <= cs.len(),
            cs@ == username@,
            forall|j: int| 0 <= j < i ==> is_ascii_alphabetic(#[trigger] cs@[j]),
        decreases cs.len() - i,
    {
        if !ascii_alphabetic(cs[i]) {
            return false;
        }
        i += 1;
    }
    true
}

} // verus!

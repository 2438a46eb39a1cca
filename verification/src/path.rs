//! Dotted paths: how a path falls into segments, and how the segments lead
//! from a variable down into its value.

use vstd::prelude::*;
use crate::value::{owned, Value};

verus! {

/// The number of characters of `s` before its first dot: the length of `s`
/// where it has none.
pub open spec fn first_dot(s: Seq<char>) -> int
    decreases s.len(),
{
    if s.len() == 0 || s[0] == '.' {
        0
    } else {
        1 + first_dot(s.subrange(1, s.len() as int))
    }
}

/// The segments of a path: the pieces between its dots, in order. A path
/// without a dot is one segment, and so is the empty path.
pub open spec fn segments(s: Seq<char>) -> Seq<Seq<char>>
    decreases s.len(),
    via segments_decreases
{
    let i = first_dot(s);
    if i >= s.len() {
        seq![s]
    } else {
        seq![s.subrange(0, i)] + segments(s.subrange(i + 1, s.len() as int))
    }
}

#[via_fn]
proof fn segments_decreases(s: Seq<char>) {
    lemma_first_dot_bounds(s);
}

/// The first dot lies within the text.
pub proof fn lemma_first_dot_bounds(s: Seq<char>)
    ensures
        0 <= first_dot(s) <= s.len(),
    decreases s.len(),
{
    if s.len() > 0 && s[0] != '.' {
        lemma_first_dot_bounds(s.subrange(1, s.len() as int));
    }
}

/// A position before which `s` has no dot, and which is the end of `s` or
/// holds a dot, is the first dot of `s`.
pub proof fn lemma_first_dot_at(s: Seq<char>, k: int)
    requires
        0 <= k <= s.len(),
        forall|j: int| 0 <= j < k ==> s[j] != '.',
        k == s.len() || s[k] == '.',
    ensures
        first_dot(s) == k,
    decreases s.len(),
{
    if k > 0 {
        let rest = s.subrange(1, s.len() as int);
        assert(forall|j: int| 0 <= j < k - 1 ==> rest[j] == s[j + 1]);
        lemma_first_dot_at(rest, k - 1);
    }
}

/// The value of a decimal digit; none for any other character.
pub open spec fn digit_value(c: char) -> Option<nat> {
    if c == '0' {
        Some(0)
    } else if c == '1' {
        Some(1)
    } else if c == '2' {
        Some(2)
    } else if c == '3' {
        Some(3)
    } else if c == '4' {
        Some(4)
    } else if c == '5' {
        Some(5)
    } else if c == '6' {
        Some(6)
    } else if c == '7' {
        Some(7)
    } else if c == '8' {
        Some(8)
    } else if c == '9' {
        Some(9)
    } else {
        None
    }
}

/// Whether `s` holds decimal digits and nothing else.
pub open spec fn all_digits(s: Seq<char>) -> bool {
    forall|i: int| 0 <= i < s.len() ==> (#[trigger] digit_value(s[i])).is_some()
}

/// The number that the digits of `s` write in base ten.
pub open spec fn digits_value(s: Seq<char>) -> nat
    decreases s.len(),
{
    if s.len() == 0 {
        0
    } else {
        match digit_value(s.last()) {
            Some(d) => 10 * digits_value(s.drop_last()) + d,
            None => 0,
        }
    }
}

/// The position that a segment names, if it names one: the segment is one
/// or more decimal digits, after a plus sign or without one, and the number
/// they write fits a machine word.
pub open spec fn index_of(segment: Seq<char>) -> Option<nat> {
    let digits = if segment.len() > 0 && segment[0] == '+' {
        segment.subrange(1, segment.len() as int)
    } else {
        segment
    };
    if digits.len() > 0 && all_digits(digits) && digits_value(digits) <= usize::MAX {
        Some(digits_value(digits))
    } else {
        None
    }
}

/// Calls `str::parse::<usize>` and keeps the number where it succeeds. std
/// documents that the text must be decimal digits, with an optional plus
/// sign in front and nothing else around them, and that an empty text and
/// a number too large for the type are errors.
#[verifier::external_body]
fn parse_index(segment: &str) -> (index: Option<usize>)
    ensures
        match index {
            Some(i) => index_of(segment@) == Some(i as nat),
            None => index_of(segment@).is_none(),
        },
{
    segment.parse::<usize>().ok()
}

/// One step down from `value` along `segment`: the element at that position
/// where the segment names a position and `value` is an array that reaches
/// it, else the member of that name.
pub open spec fn step(value: Value, segment: Seq<char>) -> Option<Value> {
    match index_of(segment) {
        Some(i) => match value.element(i) {
            Some(element) => Some(element),
            None => value.member(segment),
        },
        None => value.member(segment),
    }
}

/// The value reached from `start` along `segments`, one step for each.
/// Nothing is reached once a step finds nothing.
pub open spec fn walk(start: Option<Value>, segments: Seq<Seq<char>>) -> Option<Value>
    decreases segments.len(),
{
    if segments.len() == 0 {
        start
    } else {
        match start {
            Some(value) => walk(step(value, segments[0]), segments.skip(1)),
            None => None,
        }
    }
}

/// What a path refers to among the variables `vars`: nothing for the empty
/// path; else the variable that the first segment names, followed down
/// along the other segments.
pub open spec fn resolve(vars: Map<Seq<char>, Value>, path: Seq<char>) -> Option<Value> {
    if path.len() == 0 {
        None
    } else {
        let parts = segments(path);
        let top = if vars.dom().contains(parts[0]) {
            Some(vars[parts[0]])
        } else {
            None
        };
        walk(top, parts.skip(1))
    }
}

/// The texts of a list of strings.
pub open spec fn texts(parts: Seq<String>) -> Seq<Seq<char>> {
    parts.map_values(|part: String| part@)
}

/// Splits a path at its dots.
pub fn split_path(path: &str) -> (parts: Vec<String>)
    ensures
        texts(parts@) == segments(path@),
{
    let n = path.unicode_len();
    let mut parts: Vec<String> = Vec::new();
    let mut start: usize = 0;
    let mut i: usize = 0;
    assert(path@.subrange(0, n as int) == path@);
    assert(texts(parts@) + segments(path@) == segments(path@));
    while i < n
        invariant
            n == path@.len(),
            start <= i <= n,
            forall|j: int| start <= j < i ==> path@[j] != '.',
            segments(path@) == texts(parts@) + segments(path@.subrange(start as int, n as int)),
        decreases n - i,
    {
        let c = path.get_char(i);
        if c == '.' {
            let part = String::from_str(path.substring_char(start, i));
            proof {
                let rest = path@.subrange(start as int, n as int);
                assert(forall|j: int| 0 <= j < i - start ==> rest[j] == path@[start + j]);
                lemma_first_dot_at(rest, i - start);
                assert(rest.subrange(0, i - start) == path@.subrange(start as int, i as int));
                assert(rest.subrange(i - start + 1, rest.len() as int) == path@.subrange(
                    i + 1,
                    n as int,
                ));
                assert(texts(parts@.push(part)) == texts(parts@) + seq![part@]);
            }
            parts.push(part);
            start = i + 1;
        }
        i += 1;
    }
    let part = String::from_str(path.substring_char(start, n));
    proof {
        let rest = path@.subrange(start as int, n as int);
        assert(forall|j: int| 0 <= j < n - start ==> rest[j] == path@[start + j]);
        lemma_first_dot_at(rest, n - start);
        assert(texts(parts@.push(part)) == texts(parts@) + seq![part@]);
    }
    parts.push(part);
    parts
}

/// Takes one step down from `value` along `segment`.
pub fn descend<'a>(value: &'a Value, segment: &str) -> (found: Option<&'a Value>)
    ensures
        owned(found) == step(*value, segment@),
{
    match parse_index(segment) {
        Some(index) => match value.get_index(index) {
            Some(element) => Some(element),
            None => value.get_key(segment),
        },
        None => value.get_key(segment),
    }
}

/// Follows `parts`, from the one at `from` on, down from `start`.
pub fn follow<'a>(start: Option<&'a Value>, parts: &Vec<String>, from: usize) -> (found: Option<
    &'a Value,
>)
    requires
        from <= parts.len(),
    ensures
        owned(found) == walk(owned(start), texts(parts@).skip(from as int)),
{
    let mut current = start;
    let mut i: usize = from;
    while i < parts.len()
        invariant
            from <= i <= parts.len(),
            walk(owned(current), texts(parts@).skip(i as int)) == walk(
                owned(start),
                texts(parts@).skip(from as int),
            ),
        decreases parts.len() - i,
    {
        assert(texts(parts@).skip(i as int).skip(1) == texts(parts@).skip(i + 1));
        match current {
            Some(value) => {
                current = descend(value, parts[i].as_str());
            },
            None => {
                return None;
            },
        }
        i += 1;
    }
    current
}

} // verus!

//! Placeholders in a line of text, and the line with each replaced by the
//! text of the value that it names.

use vstd::prelude::*;
use crate::path::resolve;
use crate::store::Mapping;
use crate::value::Value;

verus! {

/// A compiled pattern. Nothing of it is visible here but what
/// `captured` says it finds.
#[verifier::external_type_specification]
#[verifier::external_body]
pub struct ExRegex(regex::Regex);

/// One match of a pattern in a line: the characters from `start` up to
/// `end`, and the text that the group named `key` captured in it, if any.
#[derive(Clone, Debug, PartialEq)]
pub struct Placeholder {
    pub start: usize,
    pub end: usize,
    pub key: Option<String>,
}

/// A placeholder as contracts see it.
pub struct Span {
    pub start: int,
    pub end: int,
    pub key: Option<Seq<char>>,
}

impl View for Placeholder {
    type V = Span;

    open spec fn view(&self) -> Span {
        Span {
            start: self.start as int,
            end: self.end as int,
            key: match self.key {
                Some(key) => Some(key@),
                None => None,
            },
        }
    }
}

/// The placeholders of a list, as contracts see them.
pub open spec fn spans(found: Seq<Placeholder>) -> Seq<Span> {
    found.map_values(|p: Placeholder| p@)
}

/// The matches that `regex` finds in `line`, from left to right: of each
/// where it starts and ends, counted in characters from the start of the
/// line, and what its group `key` captured.
pub uninterp spec fn captured(regex: regex::Regex, line: Seq<char>) -> Seq<Span>;

/// Whether `found` lies in a text of `len` characters from left to right:
/// each span within the text, none reaching into the next.
pub open spec fn in_order(found: Seq<Span>, len: int) -> bool {
    &&& forall|i: int| 0 <= i < found.len() ==> 0 <= (#[trigger] found[i]).start <= found[i].end <= len
    &&& forall|i: int, j: int|
        0 <= i < j < found.len() ==> (#[trigger] found[i]).end <= (#[trigger] found[j]).start
}

/// Calls `Regex::captures_iter` and, on each of the `Captures` that it
/// yields, `get` with 0 for the whole match and `name` with "key" for the
/// group. The crate documents that the iterator yields the successive
/// matches that do not overlap, and that `Match::start` is at most
/// `Match::end` and both lie on character boundaries of the line. The
/// positions are handed on as counts of characters.
#[verifier::external_body]
fn placeholders(regex: &regex::Regex, line: &str) -> (found: Vec<Placeholder>)
    ensures
        spans(found@) == captured(*regex, line@),
        in_order(spans(found@), line@.len() as int),
{
    regex.captures_iter(line).map(|caps| {
        let whole = caps.get(0).unwrap();
        Placeholder {
            start: line[..whole.start()].chars().count(),
            end: line[..whole.end()].chars().count(),
            key: caps.name("key").map(|key| key.as_str().to_string()),
        }
    }).collect()
}

/// The text that stands in for a placeholder whose path refers to `found`:
/// a text as it is, a number in decimal, and nothing for anything else.
pub open spec fn inserted(found: Option<Value>) -> Seq<char> {
    match found {
        Some(Value::Text(text)) => text@,
        Some(Value::Number(number)) => number.text(),
        _ => Seq::empty(),
    }
}

/// What a placeholder names among `vars`: what its key refers to, and
/// nothing where it has no key.
pub open spec fn named(vars: Map<Seq<char>, Value>, span: Span) -> Option<Value> {
    match span.key {
        Some(path) => resolve(vars, path),
        None => None,
    }
}

/// `line` from the position `from` on, with each span of `found` replaced
/// by the text of what it names among `vars`, and all between and after
/// them kept.
pub open spec fn substituted(
    vars: Map<Seq<char>, Value>,
    line: Seq<char>,
    found: Seq<Span>,
    from: int,
) -> Seq<char>
    decreases found.len(),
{
    if found.len() == 0 {
        line.subrange(from, line.len() as int)
    } else {
        line.subrange(from, found[0].start) + inserted(named(vars, found[0])) + substituted(
            vars,
            line,
            found.skip(1),
            found[0].end,
        )
    }
}

/// Writes `line` anew with each placeholder of `found` replaced by the
/// text of what it names among `vars`.
pub fn splice(vars: &Mapping, line: &str, found: &Vec<Placeholder>) -> (out: String)
    requires
        in_order(spans(found@), line@.len() as int),
    ensures
        out@ == substituted(vars@, line@, spans(found@), 0),
{
    let n = line.unicode_len();
    let mut out = String::new();
    let mut last: usize = 0;
    let mut i: usize = 0;
    assert(spans(found@).skip(0) == spans(found@));
    while i < found.len()
        invariant
            i <= found.len(),
            n == line@.len(),
            last <= n,
            in_order(spans(found@), n as int),
            forall|j: int| i <= j < found.len() ==> last <= (#[trigger] spans(found@)[j]).start,
            substituted(vars@, line@, spans(found@), 0) == out@ + substituted(
                vars@,
                line@,
                spans(found@).skip(i as int),
                last as int,
            ),
        decreases found.len() - i,
    {
        let ghost before = out@;
        let ghost rest = spans(found@).skip(i as int);
        let here = &found[i];
        assert(spans(found@)[i as int] == here@);
        assert(rest[0] == here@);
        assert(rest.skip(1) == spans(found@).skip(i + 1));
        out.append(line.substring_char(last, here.start));
        match &here.key {
            Some(path) => {
                match vars.resolve(path.as_str()) {
                    Some(Value::Text(text)) => {
                        out.append(text.as_str());
                    },
                    Some(Value::Number(number)) => {
                        let text = number.to_text();
                        out.append(text.as_str());
                    },
                    _ => {},
                }
            },
            None => {},
        }
        assert(out@ == before + (line@.subrange(last as int, here.start as int) + inserted(
            named(vars@, here@),
        )));
        last = here.end;
        i += 1;
    }
    out.append(line.substring_char(last, n));
    out
}

/// Replaces every match of `regex` in `line` by the text of what the
/// match's group `key` names among `vars`.
pub fn substitute(vars: &Mapping, regex: &regex::Regex, line: &str) -> (out: String)
    ensures
        out@ == substituted(vars@, line@, captured(*regex, line@), 0),
{
    let found = placeholders(regex, line);
    splice(vars, line, &found)
}

} // verus!

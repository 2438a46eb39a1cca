//! What holds of the variables, of paths and of substitution, whatever the
//! values.

use vstd::prelude::*;
use crate::path::{lemma_first_dot_at, resolve, segments, walk};
use crate::store::lists;
use crate::template::{captured, inserted, named, substituted, Span};
use crate::value::Value;

verus! {

/// Whether `name` holds no dot.
pub open spec fn dotless(name: Seq<char>) -> bool {
    forall|i: int| 0 <= i < name.len() ==> name[i] != '.'
}

/// Nothing is reached from nothing, however many segments follow.
pub proof fn law_nothing_leads_nowhere(segments: Seq<Seq<char>>)
    ensures
        walk(None, segments).is_none(),
{
}

/// A name without a dot that is not set refers to nothing, and so does
/// every path that begins with that name and a dot.
pub proof fn law_unknown_name(vars: Map<Seq<char>, Value>, name: Seq<char>, rest: Seq<char>)
    requires
        dotless(name),
        !vars.dom().contains(name),
    ensures
        resolve(vars, name).is_none(),
        resolve(vars, name + seq!['.'] + rest).is_none(),
{
    lemma_first_dot_at(name, name.len() as int);
    let path = name + seq!['.'] + rest;
    lemma_first_dot_at(path, name.len() as int);
    assert(path.subrange(0, name.len() as int) == name);
    assert(segments(path)[0] == name);
    law_nothing_leads_nowhere(segments(path).skip(1));
    law_nothing_leads_nowhere(segments(name).skip(1));
}

/// A name without a dot that is set refers to the whole value of that
/// variable.
pub proof fn law_bare_name(vars: Map<Seq<char>, Value>, name: Seq<char>)
    requires
        dotless(name),
        name.len() > 0,
        vars.dom().contains(name),
    ensures
        resolve(vars, name) == Some(vars[name]),
{
    lemma_first_dot_at(name, name.len() as int);
    assert(segments(name).skip(1).len() == 0);
}

/// Two substitutions over the same variables, pattern and line write the
/// same text.
pub proof fn law_substitute_again(
    vars: Map<Seq<char>, Value>,
    regex: regex::Regex,
    line: Seq<char>,
    first: Seq<char>,
    second: Seq<char>,
)
    requires
        first == substituted(vars, line, captured(regex, line), 0),
        second == substituted(vars, line, captured(regex, line), 0),
    ensures
        first == second,
{
}

/// A line with one placeholder whose path refers to nothing comes out as
/// the line without the placeholder.
pub proof fn law_unknown_placeholder_erased(
    vars: Map<Seq<char>, Value>,
    line: Seq<char>,
    span: Span,
)
    requires
        0 <= span.start <= span.end <= line.len(),
        named(vars, span).is_none(),
    ensures
        substituted(vars, line, seq![span], 0) == line.subrange(0, span.start) + line.subrange(
            span.end,
            line.len() as int,
        ),
{
    let found = seq![span];
    assert(found[0] == span);
    assert(found.skip(1).len() == 0);
    assert(substituted(vars, line, found.skip(1), span.end) == line.subrange(
        span.end,
        line.len() as int,
    ));
    assert(inserted(named(vars, span)) == Seq::<char>::empty());
    assert(line.subrange(0, span.start) + Seq::<char>::empty() == line.subrange(0, span.start));
}

/// A line in which nothing matches comes out as it is.
pub proof fn law_no_placeholder(vars: Map<Seq<char>, Value>, line: Seq<char>)
    ensures
        substituted(vars, line, Seq::empty(), 0) == line,
{
    assert(line.subrange(0, line.len() as int) == line);
}

/// After a name was set twice, it is set once, to the second value, and
/// the first value has left no trace.
pub proof fn law_set_twice(
    vars: Map<Seq<char>, Value>,
    name: Seq<char>,
    first: Value,
    second: Value,
)
    ensures
        vars.insert(name, first).insert(name, second) == vars.insert(name, second),
        vars.insert(name, first).insert(name, second)[name] == second,
{
    assert(vars.insert(name, first).insert(name, second) =~= vars.insert(name, second));
}

/// A list of the names holds a name that is set at one place and at no
/// other.
pub proof fn law_name_listed_once(
    vars: Map<Seq<char>, Value>,
    names: Seq<&str>,
    name: Seq<char>,
)
    requires
        lists(names, vars),
        vars.dom().contains(name),
    ensures
        exists|i: int|
            0 <= i < names.len() && #[trigger] names[i]@ == name && forall|j: int|
                0 <= j < names.len() && j != i ==> names[j]@ != name,
{
    let i = choose|i: int| 0 <= i < names.len() && #[trigger] names[i]@ == name;
    assert forall|j: int| 0 <= j < names.len() && j != i implies names[j]@ != name by {
        if j < i {
            assert(names[j]@ != names[i]@);
        } else {
            assert(names[i]@ != names[j]@);
        }
    }
}

/// A list of the names holds no name that is not set.
pub proof fn law_unset_name_not_listed(
    vars: Map<Seq<char>, Value>,
    names: Seq<&str>,
    name: Seq<char>,
)
    requires
        lists(names, vars),
        !vars.dom().contains(name),
    ensures
        forall|i: int| 0 <= i < names.len() ==> names[i]@ != name,
{
    assert forall|i: int| 0 <= i < names.len() implies names[i]@ != name by {
        if names[i]@ == name {
            assert(vars.dom().contains(name));
        }
    }
}

} // verus!

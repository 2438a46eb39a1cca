//! Values by name: the members of an object, and the variables of a
//! session.

use vstd::prelude::*;
use crate::path::{follow, lemma_first_dot_bounds, resolve, split_path, texts};
use crate::value::{owned, Value};

verus! {

/// The value of the last member of `members` that has the key `key`.
pub open spec fn lookup(members: Seq<(String, Value)>, key: Seq<char>) -> Option<Value>
    decreases members.len(),
{
    if members.len() == 0 {
        None
    } else if members.last().0@ == key {
        Some(members.last().1)
    } else {
        lookup(members.drop_last(), key)
    }
}

/// Where in `members` the value that `lookup` gives for `key` stands.
pub open spec fn position(members: Seq<(String, Value)>, key: Seq<char>) -> Option<int>
    decreases members.len(),
{
    if members.len() == 0 {
        None
    } else if members.last().0@ == key {
        Some(members.len() - 1)
    } else {
        position(members.drop_last(), key)
    }
}

/// `position` and `lookup` agree, and a position is one of a member with that key.
pub proof fn lemma_position(members: Seq<(String, Value)>, key: Seq<char>)
    ensures
        position(members, key).is_some() == lookup(members, key).is_some(),
        match position(members, key) {
            Some(i) => 0 <= i < members.len() && members[i].0@ == key
                && lookup(members, key) == Some(members[i].1)
                && forall|j: int| i < j < members.len() ==> members[j].0@ != key,
            None => forall|j: int| 0 <= j < members.len() ==> members[j].0@ != key,
        },
    decreases members.len(),
{
    if members.len() > 0 && members.last().0@ != key {
        let front = members.drop_last();
        lemma_position(front, key);
        assert(forall|j: int| 0 <= j < front.len() ==> front[j] == members[j]);
        match position(front, key) {
            Some(i) => {
                assert forall|j: int| i < j < members.len() implies members[j].0@ != key by {
                    if j < front.len() {
                        assert(front[j].0@ != key);
                    }
                }
            },
            None => {
                assert forall|j: int| 0 <= j < members.len() implies members[j].0@ != key by {
                    if j < front.len() {
                        assert(front[j].0@ != key);
                    }
                }
            },
        }
    }
}

/// Finds the last member of `members` that has the key `key`.
pub fn find(members: &Vec<(String, Value)>, key: &String) -> (found: Option<usize>)
    ensures
        match found {
            Some(i) => position(members@, key@) == Some(i as int),
            None => position(members@, key@).is_none(),
        },
{
    let mut i: usize = members.len();
    assert(members@.take(i as int) == members@);
    while i > 0
        invariant
            i <= members.len(),
            position(members@, key@) == position(members@.take(i as int), key@),
        decreases i,
    {
        assert(members@.take(i as int).drop_last() == members@.take(i - 1));
        if members[i - 1].0 == *key {
            return Some(i - 1);
        }
        i -= 1;
    }
    None
}

/// `vars` after each pair of `pairs` was set in it, from the first to the
/// last: of two pairs with one name the later one stays.
pub open spec fn merged(vars: Map<Seq<char>, Value>, pairs: Seq<(String, Value)>) -> Map<
    Seq<char>,
    Value,
>
    decreases pairs.len(),
{
    if pairs.len() == 0 {
        vars
    } else {
        merged(vars.insert(pairs[0].0@, pairs[0].1), pairs.skip(1))
    }
}

/// Whether no two members of `entries` have one name.
pub open spec fn distinct(entries: Seq<(String, Value)>) -> bool {
    forall|i: int, j: int| 0 <= i < j < entries.len() ==> entries[i].0@ != entries[j].0@
}

/// The map that a list of named values stands for.
pub open spec fn as_map(entries: Seq<(String, Value)>) -> Map<Seq<char>, Value> {
    Map::new(
        |name: Seq<char>| lookup(entries, name).is_some(),
        |name: Seq<char>| lookup(entries, name).unwrap(),
    )
}

/// Replacing the last member named `name` by another of that name changes
/// what is found under that name and nothing else.
pub proof fn lemma_lookup_update(
    members: Seq<(String, Value)>,
    i: int,
    entry: (String, Value),
    key: Seq<char>,
)
    requires
        0 <= i < members.len(),
        members[i].0@ == entry.0@,
        forall|j: int| i < j < members.len() ==> members[j].0@ != entry.0@,
    ensures
        lookup(members.update(i, entry), key) == if key == entry.0@ {
            Some(entry.1)
        } else {
            lookup(members, key)
        },
    decreases members.len(),
{
    let updated = members.update(i, entry);
    if i == members.len() - 1 {
        assert(updated.drop_last() == members.drop_last());
    } else {
        assert(updated.drop_last() == members.drop_last().update(i, entry));
        assert(updated.last() == members.last());
        assert(members.last().0@ != entry.0@);
        if members.last().0@ != key {
            lemma_lookup_update(members.drop_last(), i, entry, key);
        }
    }
}

/// Whether `names` holds the names of `vars`, each once.
pub open spec fn lists(names: Seq<&str>, vars: Map<Seq<char>, Value>) -> bool {
    &&& forall|i: int, j: int| 0 <= i < j < names.len() ==> names[i]@ != names[j]@
    &&& forall|name: Seq<char>|
        vars.dom().contains(name) <==> exists|i: int|
            0 <= i < names.len() && #[trigger] names[i]@ == name
}

/// Values by name. No name occurs twice among them.
#[derive(Debug, PartialEq)]
pub struct Mapping {
    entries: Vec<(String, Value)>,
}

impl View for Mapping {
    type V = Map<Seq<char>, Value>;

    /// The value of each name that is set.
    closed spec fn view(&self) -> Map<Seq<char>, Value> {
        as_map(self.entries@)
    }
}

impl Mapping {
    #[verifier::type_invariant]
    spec fn well_formed(self) -> bool {
        distinct(self.entries@)
    }

    /// No value under any name.
    pub fn new() -> (vars: Self)
        ensures
            vars@ == Map::<Seq<char>, Value>::empty(),
    {
        let vars = Mapping { entries: Vec::new() };
        assert(vars@ =~= Map::<Seq<char>, Value>::empty());
        vars
    }

    /// Puts `value` under `name`, whether or not a value stood there.
    pub fn set(&mut self, name: String, value: Value)
        ensures
            final(self)@ == old(self)@.insert(name@, value),
    {
        proof {
            use_type_invariant(&*self);
        }
        let mut entries: Vec<(String, Value)> = Vec::new();
        std::mem::swap(&mut entries, &mut self.entries);
        let ghost before = entries@;
        let ghost entry = (name, value);
        proof {
            lemma_position(before, name@);
        }
        match find(&entries, &name) {
            Some(i) => {
                entries.set(i, (name, value));
                proof {
                    assert forall|key: Seq<char>|
                        lookup(entries@, key) == if key == entry.0@ {
                            Some(entry.1)
                        } else {
                            lookup(before, key)
                        } by {
                        lemma_lookup_update(before, i as int, entry, key);
                    }
                }
            },
            None => {
                entries.push((name, value));
                assert(entries@.drop_last() == before);
            },
        }
        assert(as_map(entries@) =~= as_map(before).insert(entry.0@, entry.1));
        self.entries = entries;
    }

    /// Sets each pair of `pairs`, from the first to the last.
    pub fn merge(&mut self, pairs: Vec<(String, Value)>)
        ensures
            final(self)@ == merged(old(self)@, pairs@),
    {
        let ghost all = pairs@;
        let mut rest = pairs;
        let mut stack: Vec<(String, Value)> = Vec::new();
        while rest.len() > 0
            invariant
                rest.len() + stack.len() == all.len(),
                rest@ == all.take(rest.len() as int),
                forall|k: int| 0 <= k < stack.len() ==> stack[k] == all[all.len() - 1 - k],
            decreases rest.len(),
        {
            let pair = rest.pop().unwrap();
            stack.push(pair);
        }
        assert(all.skip(0) == all);
        while stack.len() > 0
            invariant
                stack.len() <= all.len(),
                forall|k: int| 0 <= k < stack.len() ==> stack[k] == all[all.len() - 1 - k],
                merged(self@, all.skip(all.len() - stack.len())) == merged(old(self)@, all),
            decreases stack.len(),
        {
            let ghost left = all.skip(all.len() - stack.len());
            assert(left.skip(1) == all.skip(all.len() - stack.len() + 1));
            let (name, value) = stack.pop().unwrap();
            assert(left[0] == (name, value));
            self.set(name, value);
        }
    }

    /// The names that are set, each once, in no order that callers may rely on.
    pub fn names(&self) -> (names: Vec<&str>)
        ensures
            lists(names@, self@),
    {
        proof {
            use_type_invariant(self);
        }
        let mut names: Vec<&str> = Vec::new();
        let mut i: usize = 0;
        while i < self.entries.len()
            invariant
                i <= self.entries.len(),
                names.len() == i,
                forall|k: int| 0 <= k < i ==> names[k]@ == self.entries[k].0@,
            decreases self.entries.len() - i,
        {
            names.push(self.entries[i].0.as_str());
            i += 1;
        }
        proof {
            assert forall|name: Seq<char>|
                self@.dom().contains(name) <==> exists|i: int|
                    0 <= i < names.len() && #[trigger] names[i]@ == name by {
                lemma_position(self.entries@, name);
                if self@.dom().contains(name) {
                    let at = position(self.entries@, name).unwrap();
                    assert(names[at]@ == name);
                }
                if exists|i: int| 0 <= i < names.len() && #[trigger] names[i]@ == name {
                    let at = choose|i: int| 0 <= i < names.len() && #[trigger] names[i]@ == name;
                    assert(self.entries[at].0@ == name);
                }
            }
        }
        names
    }

    /// The value under `name`, if there is one.
    pub fn get(&self, name: &str) -> (found: Option<&Value>)
        ensures
            owned(found) == if self@.dom().contains(name@) {
                Some(self@[name@])
            } else {
                None::<Value>
            },
    {
        proof {
            lemma_position(self.entries@, name@);
        }
        let wanted = String::from_str(name);
        match find(&self.entries, &wanted) {
            Some(i) => Some(&self.entries[i].1),
            None => None,
        }
    }

    /// The names and their values as a list, each name once.
    pub fn entries(&self) -> (entries: &Vec<(String, Value)>)
        ensures
            distinct(entries@),
            as_map(entries@) == self@,
    {
        proof {
            use_type_invariant(self);
        }
        &self.entries
    }

    /// Looks up what `path` refers to.
    pub fn resolve(&self, path: &str) -> (found: Option<&Value>)
        ensures
            owned(found) == resolve(self@, path@),
    {
        if path.unicode_len() == 0 {
            return None;
        }
        let parts = split_path(path);
        proof {
            lemma_first_dot_bounds(path@);
            lemma_position(self.entries@, parts[0]@);
            assert(texts(parts@).len() == parts.len());
            assert(texts(parts@)[0] == parts[0]@);
        }
        let top = match find(&self.entries, &parts[0]) {
            Some(i) => Some(&self.entries[i].1),
            None => None,
        };
        follow(top, &parts, 1)
    }
}

} // verus!

//! A map from names to values, kept as a list in which no name occurs twice.

use vstd::prelude::*;

verus! {

/// The map that a list of entries stands for: each entry is inserted in
/// turn, so of two entries with one name the later one counts.
pub open spec fn entries_map<V>(entries: Seq<(String, V)>) -> Map<Seq<char>, V>
    decreases entries.len(),
{
    if entries.len() == 0 {
        Map::empty()
    } else {
        entries_map(entries.drop_last()).insert(entries.last().0@, entries.last().1)
    }
}

/// No two entries carry the same name.
pub open spec fn names_distinct<V>(entries: Seq<(String, V)>) -> bool {
    forall|i: int, j: int|
        0 <= i < j < entries.len() ==> (#[trigger] entries[i]).0@ != (#[trigger] entries[j]).0@
}

/// A name is in the map exactly if some entry carries it.
pub proof fn lemma_entries_map_names<V>(entries: Seq<(String, V)>, name: Seq<char>)
    ensures
        entries_map(entries).contains_key(name) <==> exists|i: int|
            0 <= i < entries.len() && (#[trigger] entries[i]).0@ == name,
    decreases entries.len(),
{
    if entries.len() > 0 {
        let front = entries.drop_last();
        lemma_entries_map_names(front, name);
        if entries_map(entries).contains_key(name) {
            if entries.last().0@ == name {
                assert(entries[entries.len() - 1].0@ == name);
            } else {
                let i = choose|i: int| 0 <= i < front.len() && (#[trigger] front[i]).0@ == name;
                assert(entries[i] == front[i]);
            }
        }
        if exists|i: int| 0 <= i < entries.len() && (#[trigger] entries[i]).0@ == name {
            let i = choose|i: int| 0 <= i < entries.len() && (#[trigger] entries[i]).0@ == name;
            if i < front.len() {
                assert(front[i] == entries[i]);
            }
        }
    }
}

/// Where no name occurs twice, the map gives each entry's name that entry's
/// value.
pub proof fn lemma_entries_map_value<V>(entries: Seq<(String, V)>, i: int)
    requires
        names_distinct(entries),
        0 <= i < entries.len(),
    ensures
        entries_map(entries).contains_key(entries[i].0@),
        entries_map(entries)[entries[i].0@] == entries[i].1,
    decreases entries.len(),
{
    let front = entries.drop_last();
    if i < entries.len() - 1 {
        assert(names_distinct(front)) by {
            assert forall|a: int, b: int| 0 <= a < b < front.len() implies (#[trigger] front[a]).0@
                != (#[trigger] front[b]).0@ by {
                assert(front[a] == entries[a] && front[b] == entries[b]);
            }
        }
        lemma_entries_map_value(front, i);
        assert(front[i] == entries[i]);
        assert(entries[i].0@ != entries[entries.len() - 1].0@);
    }
}

/// Where no name occurs twice, the map has as many keys as the list has
/// entries.
pub proof fn lemma_entries_map_len<V>(entries: Seq<(String, V)>)
    requires
        names_distinct(entries),
    ensures
        entries_map(entries).dom().finite(),
        entries_map(entries).len() == entries.len(),
    decreases entries.len(),
{
    if entries.len() > 0 {
        let front = entries.drop_last();
        assert(names_distinct(front)) by {
            assert forall|a: int, b: int| 0 <= a < b < front.len() implies (#[trigger] front[a]).0@
                != (#[trigger] front[b]).0@ by {
                assert(front[a] == entries[a] && front[b] == entries[b]);
            }
        }
        lemma_entries_map_len(front);
        lemma_entries_map_names(front, entries.last().0@);
        if entries_map(front).contains_key(entries.last().0@) {
            let i = choose|i: int|
                0 <= i < front.len() && (#[trigger] front[i]).0@ == entries.last().0@;
            assert(front[i] == entries[i]);
            assert(entries[i].0@ != entries[entries.len() - 1].0@);
        }
    }
}

/// Taking the entry at `at` out of a list without repeated names removes
/// its name from the map and leaves the rest.
pub proof fn lemma_entries_map_remove<V>(entries: Seq<(String, V)>, at: int)
    requires
        names_distinct(entries),
        0 <= at < entries.len(),
    ensures
        names_distinct(entries.remove(at)),
        entries_map(entries.remove(at)) =~= entries_map(entries).remove(entries[at].0@),
{
    let rest = entries.remove(at);
    let gone = entries[at].0@;
    assert(names_distinct(rest)) by {
        assert forall|a: int, b: int| 0 <= a < b < rest.len() implies (#[trigger] rest[a]).0@
            != (#[trigger] rest[b]).0@ by {
            let a0 = if a < at { a } else { a + 1 };
            let b0 = if b < at { b } else { b + 1 };
            assert(rest[a] == entries[a0] && rest[b] == entries[b0]);
        }
    }
    assert forall|name: Seq<char>|
        entries_map(rest).contains_key(name) <==> #[trigger] entries_map(entries).remove(
            gone,
        ).contains_key(name) by {
        lemma_entries_map_names(rest, name);
        lemma_entries_map_names(entries, name);
        if entries_map(rest).contains_key(name) {
            let a = choose|a: int| 0 <= a < rest.len() && (#[trigger] rest[a]).0@ == name;
            let a0 = if a < at { a } else { a + 1 };
            assert(rest[a] == entries[a0]);
            assert(entries[a0].0@ == name);
            assert(entries[a0].0@ != entries[at].0@);
        }
        if entries_map(entries).remove(gone).contains_key(name) {
            let a0 = choose|a0: int| 0 <= a0 < entries.len() && (#[trigger] entries[a0]).0@ == name;
            let a = if a0 < at { a0 } else { a0 - 1 };
            assert(rest[a] == entries[a0]);
        }
    }
    assert forall|name: Seq<char>| #[trigger] entries_map(rest).contains_key(name) implies entries_map(
        rest,
    )[name] == entries_map(entries).remove(gone)[name] by {
        lemma_entries_map_names(rest, name);
        let a = choose|a: int| 0 <= a < rest.len() && (#[trigger] rest[a]).0@ == name;
        let a0 = if a < at { a } else { a + 1 };
        assert(rest[a] == entries[a0]);
        lemma_entries_map_value(rest, a);
        lemma_entries_map_value(entries, a0);
    }
}

/// A map from names to values.
///
/// The entries are kept in a list in which no name occurs twice; looking a
/// name up walks the list.
#[derive(Debug)]
pub struct Dict<V> {
    entries: Vec<(String, V)>,
}

impl<V> View for Dict<V> {
    type V = Map<Seq<char>, V>;

    closed spec fn view(&self) -> Map<Seq<char>, V> {
        entries_map(self.entries@)
    }
}

impl<V> Dict<V> {
    #[verifier::type_invariant]
    spec fn well_formed(&self) -> bool {
        names_distinct(self.entries@)
    }

    /// The place of `name` in the list, if it is there.
    fn position(&self, name: &String) -> (at: Option<usize>)
        ensures
            match at {
                Some(i) => i < self.entries@.len() && self.entries@[i as int].0@ == name@,
                None => forall|i: int|
                    0 <= i < self.entries@.len() ==> (#[trigger] self.entries@[i]).0@ != name@,
            },
    {
        let mut i: usize = 0;
        while i < self.entries.len()
            invariant
                i <= self.entries@.len(),
                forall|k: int| 0 <= k < i ==> (#[trigger] self.entries@[k]).0@ != name@,
            decreases self.entries@.len() - i,
        {
            if self.entries[i].0 == *name {
                return Some(i);
            }
            i = i + 1;
        }
        None
    }

    /// An empty map.
    pub fn new() -> (dict: Self)
        ensures
            dict@ == Map::<Seq<char>, V>::empty(),
    {
        Dict { entries: Vec::new() }
    }

    /// How many names the map holds.
    pub fn len(&self) -> (n: usize)
        ensures
            self@.dom().finite(),
            n == self@.len(),
    {
        proof {
            use_type_invariant(self);
            lemma_entries_map_len(self.entries@);
        }
        self.entries.len()
    }

    /// Whether the map holds no name at all.
    pub fn is_empty(&self) -> (empty: bool)
        ensures
            empty == (self@ == Map::<Seq<char>, V>::empty()),
    {
        proof {
            use_type_invariant(self);
            lemma_entries_map_len(self.entries@);
            if self.entries@.len() == 0 {
                assert(self@ =~= Map::<Seq<char>, V>::empty());
            } else {
                lemma_entries_map_value(self.entries@, 0);
            }
        }
        self.entries.len() == 0
    }

    /// Whether `name` has a value.
    pub fn contains_key(&self, name: &str) -> (found: bool)
        ensures
            found == self@.contains_key(name@),
    {
        let wanted = name.to_owned();
        let at = self.position(&wanted);
        proof {
            lemma_entries_map_names(self.entries@, name@);
        }
        at.is_some()
    }

    /// The value of `name`, if it has one.
    pub fn get(&self, name: &str) -> (value: Option<&V>)
        ensures
            match value {
                Some(v) => self@.contains_key(name@) && *v == self@[name@],
                None => !self@.contains_key(name@),
            },
    {
        let wanted = name.to_owned();
        let at = self.position(&wanted);
        proof {
            use_type_invariant(self);
            lemma_entries_map_names(self.entries@, name@);
        }
        match at {
            Some(i) => {
                proof {
                    lemma_entries_map_value(self.entries@, i as int);
                }
                Some(&self.entries[i].1)
            },
            None => None,
        }
    }

    /// Gives `name` the value `value` and hands back the value it had, if
    /// any. Every other name keeps its value.
    pub fn insert(&mut self, name: String, value: V) -> (previous: Option<V>)
        ensures
            final(self)@ == old(self)@.insert(name@, value),
            previous == if old(self)@.contains_key(name@) {
                Some(old(self)@[name@])
            } else {
                None
            },
    {
        let at = self.position(&name);
        proof {
            use_type_invariant(&*self);
            lemma_entries_map_names(self.entries@, name@);
        }
        let ghost before = self.entries@;
        let mut entries: Vec<(String, V)> = Vec::new();
        core::mem::swap(&mut self.entries, &mut entries);
        let previous = match at {
            Some(i) => {
                proof {
                    lemma_entries_map_value(before, i as int);
                    lemma_entries_map_remove(before, i as int);
                }
                Some(entries.remove(i).1)
            },
            None => None,
        };
        let ghost rest = entries@;
        proof {
            lemma_entries_map_names(rest, name@);
            assert(names_distinct(rest.push((name, value)))) by {
                let grown = rest.push((name, value));
                assert forall|a: int, b: int| 0 <= a < b < grown.len() implies (#[trigger] grown[a]).0@
                    != (#[trigger] grown[b]).0@ by {
                    assert(grown[a] == rest[a]);
                    if b < rest.len() {
                        assert(grown[b] == rest[b]);
                    }
                }
            }
            assert(rest.push((name, value)).drop_last() =~= rest);
            assert(entries_map(rest).insert(name@, value) =~= entries_map(before).insert(
                name@,
                value,
            ));
        }
        entries.push((name, value));
        self.entries = entries;
        previous
    }

    /// The names that have a value, each once, in no particular order.
    pub fn keys(&self) -> (names: Vec<&str>)
        ensures
            names@.len() == self@.len(),
            forall|i: int| 0 <= i < names@.len() ==> self@.contains_key(#[trigger] names@[i]@),
            forall|name: Seq<char>|
                self@.contains_key(name) ==> exists|i: int|
                    0 <= i < names@.len() && #[trigger] names@[i]@ == name,
            forall|i: int, j: int|
                0 <= i < j < names@.len() ==> #[trigger] names@[i]@ != #[trigger] names@[j]@,
    {
        let mut names: Vec<&str> = Vec::new();
        let mut i: usize = 0;
        while i < self.entries.len()
            invariant
                i <= self.entries@.len(),
                names@.len() == i,
                forall|k: int| 0 <= k < i ==> (#[trigger] names@[k])@ == self.entries@[k].0@,
            decreases self.entries@.len() - i,
        {
            names.push(self.entries[i].0.as_str());
            i = i + 1;
        }
        proof {
            use_type_invariant(self);
            lemma_entries_map_len(self.entries@);
            assert forall|k: int| 0 <= k < names@.len() implies self@.contains_key(
                #[trigger] names@[k]@,
            ) by {
                lemma_entries_map_value(self.entries@, k);
            }
            assert forall|name: Seq<char>| self@.contains_key(name) implies exists|k: int|
                0 <= k < names@.len() && #[trigger] names@[k]@ == name by {
                lemma_entries_map_names(self.entries@, name);
                let k = choose|k: int|
                    0 <= k < self.entries@.len() && (#[trigger] self.entries@[k]).0@ == name;
                assert(names@[k]@ == name);
            }
            assert forall|a: int, b: int| 0 <= a < b < names@.len() implies #[trigger] names@[a]@
                != #[trigger] names@[b]@ by {
                assert(self.entries@[a].0@ != self.entries@[b].0@);
            }
        }
        names
    }
}

} // verus!

//! Tables from names to values.

use crate::text::text_eq;
use vstd::prelude::*;

verus! {

/// The index of the first entry at or after `from` that is named `name`, or
/// the number of entries where there is none.
pub open spec fn first_index<V>(entries: Seq<(Vec<char>, V)>, name: Seq<char>, from: int) -> int
    decreases entries.len() - from,
{
    if 0 <= from < entries.len() {
        if entries[from].0@ == name {
            from
        } else {
            first_index(entries, name, from + 1)
        }
    } else {
        entries.len() as int
    }
}

proof fn lemma_first_index<V>(entries: Seq<(Vec<char>, V)>, name: Seq<char>, from: int)
    requires
        0 <= from <= entries.len(),
    ensures
        from <= first_index(entries, name, from) <= entries.len(),
        first_index(entries, name, from) < entries.len() ==> entries[first_index(
            entries,
            name,
            from,
        )].0@ == name,
        forall|j: int|
            from <= j < first_index(entries, name, from) ==> (#[trigger] entries[j]).0@ != name,
    decreases entries.len() - from,
{
    if from < entries.len() && entries[from].0@ != name {
        lemma_first_index(entries, name, from + 1);
    }
}

proof fn lemma_same_names<V>(
    a: Seq<(Vec<char>, V)>,
    b: Seq<(Vec<char>, V)>,
    name: Seq<char>,
    from: int,
)
    requires
        0 <= from <= a.len(),
        a.len() == b.len(),
        forall|j: int| 0 <= j < a.len() ==> (#[trigger] a[j]).0@ == b[j].0@,
    ensures
        first_index(a, name, from) == first_index(b, name, from),
    decreases a.len() - from,
{
    if from < a.len() {
        if a[from].0@ != name {
            lemma_same_names(a, b, name, from + 1);
        }
    }
}

proof fn lemma_pushed<V>(
    entries: Seq<(Vec<char>, V)>,
    entry: (Vec<char>, V),
    name: Seq<char>,
    from: int,
)
    requires
        0 <= from <= entries.len(),
    ensures
        first_index(entries.push(entry), name, from) == if first_index(entries, name, from)
            < entries.len() {
            first_index(entries, name, from)
        } else if entry.0@ == name {
            entries.len() as int
        } else {
            entries.len() as int + 1
        },
    decreases entries.len() - from,
{
    let longer = entries.push(entry);
    if from < entries.len() {
        if entries[from].0@ != name {
            lemma_pushed(entries, entry, name, from + 1);
        }
    } else {
        if entry.0@ != name {
            assert(first_index(longer, name, from + 1) == longer.len());
        }
    }
}

/// A table from names to values. A name has at most one value; a new value
/// for it takes the place of the old one.
pub struct Table<V> {
    entries: Vec<(Vec<char>, V)>,
}

impl<V: View> View for Table<V> {
    type V = Map<Seq<char>, V::V>;

    closed spec fn view(&self) -> Map<Seq<char>, V::V> {
        Map::new(
            |name: Seq<char>| first_index(self.entries@, name, 0) < self.entries@.len(),
            |name: Seq<char>| self.entries@[first_index(self.entries@, name, 0)].1@,
        )
    }
}

impl<V: View> Table<V> {
    /// A table without entries.
    pub fn new() -> (table: Self)
        ensures
            table@ == Map::<Seq<char>, V::V>::empty(),
    {
        let table = Table { entries: Vec::new() };
        table
    }

    /// The place of the entry named `name`, if there is one.
    fn position(&self, name: &Vec<char>) -> (index: usize)
        ensures
            index == first_index(self.entries@, name@, 0),
    {
        let mut i: usize = 0;
        while i < self.entries.len()
            invariant
                i <= self.entries.len(),
                first_index(self.entries@, name@, 0) == first_index(self.entries@, name@, i as int),
            decreases self.entries.len() - i,
        {
            if text_eq(&self.entries[i].0, name) {
                return i;
            }
            i += 1;
        }
        i
    }

    /// The value of `name`, if it has one.
    pub fn get(&self, name: &Vec<char>) -> (value: Option<&V>)
        ensures
            match value {
                Some(v) => self@.contains_key(name@) && v@ == self@[name@],
                None => !self@.contains_key(name@),
            },
    {
        let i: usize = self.position(name);
        if i < self.entries.len() {
            Some(&self.entries[i].1)
        } else {
            None
        }
    }

    /// Gives `name` the value `value`, in place of any value it had.
    pub fn insert(&mut self, name: Vec<char>, value: V)
        ensures
            final(self)@ == old(self)@.insert(name@, value@),
    {
        let i: usize = self.position(&name);
        let ghost before = self.entries@;
        let ghost key = name@;
        let ghost val = value@;
        proof {
            lemma_first_index(before, key, 0);
        }
        if i < self.entries.len() {
            self.entries.set(i, (name, value));
            proof {
                let after = self.entries@;
                let target = old(self)@.insert(key, val);
                assert forall|q: Seq<char>|
                    (#[trigger] self@.dom().contains(q)) == target.dom().contains(q) && (
                    self@.dom().contains(q) ==> self@[q] == target[q]) by {
                    lemma_same_names(before, after, q, 0);
                    lemma_first_index(before, q, 0);
                }
            }
        } else {
            self.entries.push((name, value));
            proof {
                let after = self.entries@;
                let target = old(self)@.insert(key, val);
                assert forall|q: Seq<char>|
                    (#[trigger] self@.dom().contains(q)) == target.dom().contains(q) && (
                    self@.dom().contains(q) ==> self@[q] == target[q]) by {
                    lemma_pushed(before, after[before.len() as int], q, 0);
                    lemma_first_index(before, q, 0);
                }
            }
        }
    }
}

} // verus!

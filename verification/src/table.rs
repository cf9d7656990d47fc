//! A table of values keyed by name.

use vstd::prelude::*;

verus! {

/// One entry of a table.
struct Entry<V> {
    name: String,
    value: V,
}

/// A table that maps names to values. Its model is the map from each name to
/// the value that was last stored under it.
pub struct NameTable<V> {
    entries: Vec<Entry<V>>,
}

/// The index of the first entry under the name, or the length if there is none.
spec fn first_index<V>(s: Seq<Entry<V>>, name: Seq<char>) -> int
    decreases s.len(),
{
    if s.len() == 0 {
        0
    } else if s[0].name@ == name {
        0
    } else {
        1 + first_index(s.drop_first(), name)
    }
}

/// What `first_index` returns: a position within bounds, which holds the name
/// if it is an index, and before which no entry holds the name.
proof fn lemma_first_index<V>(s: Seq<Entry<V>>, name: Seq<char>)
    ensures
        0 <= first_index(s, name) <= s.len(),
        first_index(s, name) < s.len() ==> s[first_index(s, name)].name@ == name,
        forall|j: int| 0 <= j < first_index(s, name) ==> (#[trigger] s[j]).name@ != name,
    decreases s.len(),
{
    if s.len() != 0 && s[0].name@ != name {
        let rest = s.drop_first();
        lemma_first_index(rest, name);
        assert forall|j: int| 0 <= j < first_index(s, name) implies (#[trigger] s[j]).name@
            != name by {
            if j > 0 {
                assert(s[j] == rest[j - 1]);
            }
        }
    }
}

/// A position that `lemma_first_index` describes is the one that `first_index` returns.
proof fn lemma_first_index_is<V>(s: Seq<Entry<V>>, name: Seq<char>, i: int)
    requires
        0 <= i <= s.len(),
        i < s.len() ==> s[i].name@ == name,
        forall|j: int| 0 <= j < i ==> (#[trigger] s[j]).name@ != name,
    ensures
        first_index(s, name) == i,
{
    lemma_first_index(s, name);
}

/// The map that a sequence of entries stands for: the first entry under a name counts.
spec fn model<V>(s: Seq<Entry<V>>) -> Map<Seq<char>, V> {
    Map::new(
        |name: Seq<char>| first_index(s, name) < s.len(),
        |name: Seq<char>| s[first_index(s, name)].value,
    )
}

/// Replacing the value of the first entry under a name stores the value under that name.
proof fn lemma_model_update<V>(s: Seq<Entry<V>>, i: int, entry: Entry<V>)
    requires
        0 <= i < s.len(),
        first_index(s, entry.name@) == i,
    ensures
        model(s.update(i, entry)) == model(s).insert(entry.name@, entry.value),
{
    let t = s.update(i, entry);
    lemma_first_index(s, entry.name@);
    assert forall|name: Seq<char>| first_index(t, name) == first_index(s, name) by {
        lemma_first_index(s, name);
        let f = first_index(s, name);
        assert(forall|j: int| 0 <= j < f ==> (#[trigger] t[j]).name@ != name);
        lemma_first_index_is(t, name, f);
    }
    let m = model(s).insert(entry.name@, entry.value);
    assert forall|name: Seq<char>| #[trigger] model(t).contains_key(name) == m.contains_key(name)
        && (m.contains_key(name) ==> model(t)[name] == m[name]) by {
        lemma_first_index(s, name);
    }
}

/// Appending an entry under a name that the table lacks stores the value under that name.
proof fn lemma_model_push<V>(s: Seq<Entry<V>>, entry: Entry<V>)
    requires
        first_index(s, entry.name@) == s.len(),
    ensures
        model(s.push(entry)) == model(s).insert(entry.name@, entry.value),
{
    let t = s.push(entry);
    assert forall|name: Seq<char>|
        first_index(t, name) == (if name != entry.name@ && first_index(s, name) == s.len() {
            t.len() as int
        } else {
            first_index(s, name)
        }) by {
        lemma_first_index(s, name);
        let f = first_index(s, name);
        assert(forall|j: int| 0 <= j < f ==> (#[trigger] t[j]).name@ != name);
        if f < s.len() || name == entry.name@ {
            lemma_first_index_is(t, name, f);
        } else {
            lemma_first_index_is(t, name, t.len() as int);
        }
    }
    let m = model(s).insert(entry.name@, entry.value);
    assert forall|name: Seq<char>| #[trigger] model(t).contains_key(name) == m.contains_key(name)
        && (m.contains_key(name) ==> model(t)[name] == m[name]) by {
        lemma_first_index(s, name);
        assert(first_index(t, name) == (if name != entry.name@ && first_index(s, name)
            == s.len() {
            t.len() as int
        } else {
            first_index(s, name)
        }));
    }
}

impl<V> View for NameTable<V> {
    type V = Map<Seq<char>, V>;

    closed spec fn view(&self) -> Map<Seq<char>, V> {
        model(self.entries@)
    }
}

impl<V> NameTable<V> {
    /// A table without entries.
    pub fn new() -> (table: Self)
        ensures
            table@ == Map::<Seq<char>, V>::empty(),
    {
        let table = NameTable { entries: Vec::new() };
        table
    }

    /// The index of the first entry under the name, or the length if there is none.
    fn position(&self, name: &str) -> (i: usize)
        ensures
            i == first_index(self.entries@, name@),
            i <= self.entries@.len(),
    {
        let key = String::from_str(name);
        let mut i: usize = 0;
        while i < self.entries.len()
            invariant
                i <= self.entries@.len(),
                key@ == name@,
                forall|j: int| 0 <= j < i ==> (#[trigger] self.entries@[j]).name@ != name@,
            decreases self.entries@.len() - i,
        {
            if self.entries[i].name == key {
                proof {
                    lemma_first_index_is(self.entries@, name@, i as int);
                }
                return i;
            }
            i += 1;
        }
        proof {
            lemma_first_index_is(self.entries@, name@, i as int);
        }
        i
    }

    /// Whether a value is stored under the name.
    pub fn contains(&self, name: &str) -> (found: bool)
        ensures
            found == self@.contains_key(name@),
    {
        self.position(name) < self.entries.len()
    }

    /// The value stored under the name.
    pub fn get(&self, name: &str) -> (found: Option<&V>)
        ensures
            found == (if self@.contains_key(name@) {
                Some(&self@[name@])
            } else {
                None
            }),
    {
        let i = self.position(name);
        if i < self.entries.len() {
            Some(&self.entries[i].value)
        } else {
            None
        }
    }

    /// The value stored under the name, for the caller to change.
    pub fn get_mut(&mut self, name: &str) -> (found: Option<&mut V>)
        ensures
            match found {
                Some(value) => old(self)@.contains_key(name@) && *value == old(self)@[name@]
                    && final(self)@ == old(self)@.insert(name@, *final(value)),
                None => !old(self)@.contains_key(name@) && final(self)@ == old(self)@,
            },
    {
        let i = self.position(name);
        if i < self.entries.len() {
            let ghost before = self.entries@;
            let entry = &mut self.entries[i];
            let value = &mut entry.value;
            proof {
                lemma_first_index(before, name@);
                lemma_model_update(
                    before,
                    i as int,
                    Entry { name: before[i as int].name, value: *final(value) },
                );
            }
            Some(value)
        } else {
            None
        }
    }

    /// Stores the value under the name, in place of the value that was stored
    /// under it, if there was one.
    pub fn insert(&mut self, name: String, value: V)
        ensures
            final(self)@ == old(self)@.insert(name@, value),
    {
        let i = self.position(name.as_str());
        let entry = Entry { name, value };
        if i < self.entries.len() {
            proof {
                lemma_model_update(self.entries@, i as int, entry);
            }
            self.entries.set(i, entry);
        } else {
            proof {
                lemma_model_push(self.entries@, entry);
            }
            self.entries.push(entry);
        }
    }
}

} // verus!

//! A map from field names to values, kept as a list of entries whose names differ.

use vstd::prelude::*;
use vstd::string::StringExecFns;

verus! {

/// No two entries carry the same name.
pub open spec fn distinct_names<V>(entries: Seq<(String, V)>) -> bool {
    forall|i: int, j: int| 0 <= i < j < entries.len() ==> entries[i].0@ != entries[j].0@
}

/// Some entry carries `name`.
pub open spec fn has_name<V>(entries: Seq<(String, V)>, name: Seq<char>) -> bool {
    exists|i: int| 0 <= i < entries.len() && #[trigger] entries[i].0@ == name
}

/// The place of an entry that carries `name`.
pub open spec fn position_of<V>(entries: Seq<(String, V)>, name: Seq<char>) -> int {
    choose|i: int| 0 <= i < entries.len() && #[trigger] entries[i].0@ == name
}

/// The map that a list of entries stands for: each name taken by its characters,
/// with the value that its entry holds.
pub open spec fn entries_map<V>(entries: Seq<(String, V)>) -> Map<Seq<char>, V> {
    Map::new(
        |name: Seq<char>| has_name(entries, name),
        |name: Seq<char>| entries[position_of(entries, name)].1,
    )
}

/// Each entry of a list with distinct names is found under its name.
pub proof fn lemma_entry_is_mapped<V>(entries: Seq<(String, V)>, i: int)
    requires
        distinct_names(entries),
        0 <= i < entries.len(),
    ensures
        entries_map(entries).dom().contains(entries[i].0@),
        entries_map(entries)[entries[i].0@] == entries[i].1,
{
    let name = entries[i].0@;
    assert(has_name(entries, name));
    let j = position_of(entries, name);
    assert(0 <= j < entries.len() && entries[j].0@ == name);
    assert(j == i);
}

/// Appending an entry under a new name inserts it into the map.
pub proof fn lemma_push_entry<V>(entries: Seq<(String, V)>, name: String, value: V)
    requires
        distinct_names(entries),
        !has_name(entries, name@),
    ensures
        distinct_names(entries.push((name, value))),
        entries_map(entries.push((name, value))) == entries_map(entries).insert(name@, value),
{
    let grown = entries.push((name, value));
    assert forall|i: int, j: int| 0 <= i < j < grown.len() implies grown[i].0@ != grown[j].0@ by {
        if j == entries.len() {
            assert(entries[i].0@ != name@);
        }
    }
    assert forall|k: Seq<char>| has_name(grown, k) <==> (k == name@ || has_name(entries, k)) by {
        if has_name(grown, k) {
            let i = position_of(grown, k);
            if i < entries.len() {
                assert(entries[i].0@ == k);
            }
        }
        if k == name@ {
            assert(grown[entries.len() as int].0@ == k);
        }
        if has_name(entries, k) {
            let i = position_of(entries, k);
            assert(grown[i].0@ == k);
        }
    }
    assert forall|k: Seq<char>| has_name(grown, k) implies #[trigger] entries_map(grown)[k]
        == entries_map(entries).insert(name@, value)[k] by {
        let i = position_of(grown, k);
        lemma_entry_is_mapped(grown, i);
        if i < entries.len() {
            lemma_entry_is_mapped(entries, i);
        }
    }
    assert(entries_map(grown) =~= entries_map(entries).insert(name@, value));
}

/// Where the entry at place `a` of a list stood before the entry at place `i` was taken out.
pub open spec fn shifted(a: int, i: int) -> int {
    if a < i {
        a
    } else {
        a + 1
    }
}

/// Taking an entry out of the list removes its name from the map.
pub proof fn lemma_remove_entry<V>(entries: Seq<(String, V)>, i: int)
    requires
        distinct_names(entries),
        0 <= i < entries.len(),
    ensures
        distinct_names(entries.remove(i)),
        !has_name(entries.remove(i), entries[i].0@),
        entries_map(entries.remove(i)) == entries_map(entries).remove(entries[i].0@),
{
    let rest = entries.remove(i);
    let name = entries[i].0@;
    assert forall|a: int| 0 <= a < rest.len() implies #[trigger] rest[a] == entries[shifted(a, i)] by {}
    assert forall|a: int, b: int| 0 <= a < b < rest.len() implies rest[a].0@ != rest[b].0@ by {
        let a0 = shifted(a, i);
        let b0 = shifted(b, i);
        assert(rest[a] == entries[a0]);
        assert(rest[b] == entries[b0]);
    }
    assert forall|k: Seq<char>| has_name(rest, k) <==> (k != name && has_name(entries, k)) by {
        if has_name(rest, k) {
            let a = position_of(rest, k);
            let a0 = shifted(a, i);
            assert(rest[a] == entries[a0]);
            assert(entries[a0].0@ == k);
        }
        if k != name && has_name(entries, k) {
            let a0 = position_of(entries, k);
            let a = if a0 < i { a0 } else { a0 - 1 };
            assert(rest[a] == entries[a0]);
            assert(rest[a].0@ == k);
        }
    }
    assert forall|k: Seq<char>| has_name(rest, k) implies #[trigger] entries_map(rest)[k]
        == entries_map(entries).remove(name)[k] by {
        let a = position_of(rest, k);
        let a0 = shifted(a, i);
        assert(rest[a] == entries[a0]);
        lemma_entry_is_mapped(rest, a);
        lemma_entry_is_mapped(entries, a0);
    }
    assert(entries_map(rest) =~= entries_map(entries).remove(name));
}

/// A list with distinct names stands for a finite map with one key for each entry.
pub proof fn lemma_entries_counted<V>(entries: Seq<(String, V)>)
    requires
        distinct_names(entries),
    ensures
        entries_map(entries).dom().finite(),
        entries_map(entries).dom().len() == entries.len(),
    decreases entries.len(),
{
    if entries.len() == 0 {
        assert(entries_map(entries).dom() =~= Set::<Seq<char>>::empty());
    } else {
        let front = entries.drop_last();
        let last = entries.last();
        assert(entries =~= front.push(last));
        assert(distinct_names(front));
        assert(!has_name(front, last.0@)) by {
            if has_name(front, last.0@) {
                let i = position_of(front, last.0@);
                assert(entries[i].0@ == entries[entries.len() - 1].0@);
            }
        }
        lemma_entries_counted(front);
        lemma_push_entry(front, last.0, last.1);
        assert(entries_map(entries).dom() =~= entries_map(front).dom().insert(last.0@));
        assert(!entries_map(front).dom().contains(last.0@));
    }
}

/// A map from field names to values.
///
/// The order in which fields were inserted carries no meaning: the map is
/// read through its view, a `Map` keyed by the characters of each name.
#[derive(Debug)]
pub struct FieldMap<V> {
    entries: Vec<(String, V)>,
}

impl<V> View for FieldMap<V> {
    type V = Map<Seq<char>, V>;

    closed spec fn view(&self) -> Map<Seq<char>, V> {
        entries_map(self.entries@)
    }
}

impl<V> FieldMap<V> {
    #[verifier::type_invariant]
    spec fn names_differ(self) -> bool {
        distinct_names(self.entries@)
    }

    /// A map with no field.
    pub fn new() -> (map: Self)
        ensures
            map@ == Map::<Seq<char>, V>::empty(),
    {
        let map = FieldMap { entries: Vec::new() };
        assert(map@ =~= Map::<Seq<char>, V>::empty());
        map
    }

    /// The number of fields.
    pub fn len(&self) -> (n: usize)
        ensures
            self@.dom().finite(),
            n == self@.dom().len(),
    {
        proof {
            use_type_invariant(self);
            lemma_entries_counted(self.entries@);
        }
        self.entries.len()
    }

    /// Whether the map has no field.
    pub fn is_empty(&self) -> (empty: bool)
        ensures
            empty == (self@ == Map::<Seq<char>, V>::empty()),
    {
        proof {
            use_type_invariant(self);
            if self.entries@.len() == 0 {
                assert(self@ =~= Map::<Seq<char>, V>::empty());
            } else {
                lemma_entry_is_mapped(self.entries@, 0);
            }
        }
        self.entries.len() == 0
    }

    /// Where the entry named `name` stands, if there is one.
    fn find(&self, name: &String) -> (found: Option<usize>)
        ensures
            match found {
                Some(i) => i < self.entries@.len() && self.entries@[i as int].0@ == name@,
                None => !has_name(self.entries@, name@),
            },
    {
        let mut i: usize = 0;
        while i < self.entries.len()
            invariant
                i <= self.entries@.len(),
                forall|j: int| 0 <= j < i ==> self.entries@[j].0@ != name@,
            decreases self.entries@.len() - i,
        {
            if self.entries[i].0 == *name {
                return Some(i);
            }
            i += 1;
        }
        None
    }

    /// Move the entries out, leaving the map empty.
    fn take_entries(&mut self) -> (entries: Vec<(String, V)>)
        ensures
            entries@ == old(self).entries@,
            final(self).entries@.len() == 0,
    {
        let mut entries = Vec::new();
        core::mem::swap(&mut self.entries, &mut entries);
        entries
    }

    /// Whether a field named `name` is present.
    pub fn contains_key(&self, name: &str) -> (present: bool)
        ensures
            present == self@.dom().contains(name@),
    {
        let key = String::from_str(name);
        let found = self.find(&key);
        proof {
            use_type_invariant(self);
            if let Some(i) = found {
                lemma_entry_is_mapped(self.entries@, i as int);
            }
        }
        found.is_some()
    }

    /// The value of the field named `name`, if it is present.
    pub fn get(&self, name: &str) -> (value: Option<&V>)
        ensures
            match value {
                Some(v) => self@.dom().contains(name@) && *v == self@[name@],
                None => !self@.dom().contains(name@),
            },
    {
        let key = String::from_str(name);
        match self.find(&key) {
            Some(i) => {
                proof {
                    use_type_invariant(self);
                    lemma_entry_is_mapped(self.entries@, i as int);
                }
                Some(&self.entries[i].1)
            },
            None => None,
        }
    }

    /// Set the field named `name` to `value`. An earlier value of that field
    /// is replaced and handed back.
    pub fn insert(&mut self, name: &str, value: V) -> (replaced: Option<V>)
        ensures
            final(self)@ == old(self)@.insert(name@, value),
            replaced == if old(self)@.dom().contains(name@) {
                Some(old(self)@[name@])
            } else {
                None
            },
    {
        let key = String::from_str(name);
        proof {
            use_type_invariant(&*self);
        }
        let found = self.find(&key);
        let mut entries = self.take_entries();
        let replaced = match found {
            Some(i) => {
                proof {
                    lemma_entry_is_mapped(entries@, i as int);
                    lemma_remove_entry(entries@, i as int);
                    lemma_push_entry(entries@.remove(i as int), key, value);
                }
                let old_entry = entries.remove(i);
                entries.push((key, value));
                Some(old_entry.1)
            },
            None => {
                proof {
                    lemma_push_entry(entries@, key, value);
                }
                entries.push((key, value));
                None
            },
        };
        self.entries = entries;
        assert(self@ =~= old(self)@.insert(name@, value));
        replaced
    }

    /// Take the field named `name` out of the map and hand back its value.
    pub fn remove(&mut self, name: &str) -> (removed: Option<V>)
        ensures
            final(self)@ == old(self)@.remove(name@),
            removed == if old(self)@.dom().contains(name@) {
                Some(old(self)@[name@])
            } else {
                None
            },
    {
        let key = String::from_str(name);
        proof {
            use_type_invariant(&*self);
        }
        let found = self.find(&key);
        let mut entries = self.take_entries();
        let removed = match found {
            Some(i) => {
                proof {
                    lemma_entry_is_mapped(entries@, i as int);
                    lemma_remove_entry(entries@, i as int);
                }
                let old_entry = entries.remove(i);
                Some(old_entry.1)
            },
            None => None,
        };
        self.entries = entries;
        assert(self@ =~= old(self)@.remove(name@));
        removed
    }

    /// The map with the same names, each value replaced by what `convert` makes of it.
    pub fn map_values<W, G: Fn(V) -> W>(self, convert: G) -> (mapped: FieldMap<W>)
        requires
            forall|name: Seq<char>|
                self@.dom().contains(name) ==> call_requires(convert, (#[trigger] self@[name],)),
        ensures
            mapped@.dom() == self@.dom(),
            forall|name: Seq<char>|
                self@.dom().contains(name) ==> call_ensures(
                    convert,
                    (self@[name],),
                    #[trigger] mapped@[name],
                ),
    {
        proof {
            use_type_invariant(&self);
        }
        let ghost before = self.entries@;
        assert forall|i: int| 0 <= i < before.len() implies call_requires(
            convert,
            (#[trigger] before[i].1,),
        ) by {
            lemma_entry_is_mapped(before, i);
            assert(self@.dom().contains(before[i].0@));
            assert(self@[before[i].0@] == before[i].1);
        }
        let mut converted: Vec<(String, W)> = Vec::new();
        for entry in it: self.entries.into_iter()
            invariant
                it.seq() == before,
                distinct_names(before),
                converted@.len() == it.index(),
                forall|i: int|
                    0 <= i < before.len() ==> call_requires(convert, (#[trigger] before[i].1,)),
                forall|i: int|
                    0 <= i < converted@.len() ==> (#[trigger] converted@[i]).0@ == before[i].0@
                        && call_ensures(convert, (before[i].1,), converted@[i].1),
        {
            let (name, value) = entry;
            converted.push((name, convert(value)));
        }
        let mapped = FieldMap { entries: converted };
        proof {
            assert forall|name: Seq<char>| has_name(before, name) <==> has_name(
                converted@,
                name,
            ) by {
                if has_name(before, name) {
                    let i = position_of(before, name);
                    assert(converted@[i].0@ == name);
                }
                if has_name(converted@, name) {
                    let i = position_of(converted@, name);
                    assert(before[i].0@ == name);
                }
            }
            assert(mapped@.dom() =~= self@.dom());
            assert forall|name: Seq<char>| self@.dom().contains(name) implies call_ensures(
                convert,
                (self@[name],),
                #[trigger] mapped@[name],
            ) by {
                let i = position_of(before, name);
                lemma_entry_is_mapped(before, i);
                lemma_entry_is_mapped(converted@, i);
            }
        }
        mapped
    }

    /// The fields as a list of entries, each name once.
    pub fn into_entries(self) -> (entries: Vec<(String, V)>)
        ensures
            distinct_names(entries@),
            entries_map(entries@) == self@,
    {
        proof {
            use_type_invariant(&self);
        }
        self.entries
    }
}

} // verus!

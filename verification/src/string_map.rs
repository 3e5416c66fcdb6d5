//! A map with text keys.

use vstd::prelude::*;

verus! {

/// A map from texts to values, in which no key occurs twice.
pub struct StringMap<V> {
    entries: Vec<(String, V)>,
}

/// No two entries share a key.
pub open spec fn distinct_keys<V>(entries: Seq<(String, V)>) -> bool {
    forall|i: int, j: int|
        0 <= i < j < entries.len() ==> (#[trigger] entries[i]).0@ != (#[trigger] entries[j]).0@
}

/// The position of an entry with this key.
pub open spec fn position<V>(entries: Seq<(String, V)>, key: Seq<char>, i: int) -> bool {
    0 <= i < entries.len() && entries[i].0@ == key
}

/// The map that a list of entries stands for.
pub open spec fn entry_map<V>(entries: Seq<(String, V)>) -> Map<Seq<char>, V> {
    Map::new(
        |key: Seq<char>| exists|i: int| position(entries, key, i),
        |key: Seq<char>| entries[choose|i: int| position(entries, key, i)].1,
    )
}

proof fn lemma_entry<V>(entries: Seq<(String, V)>, i: int)
    requires
        distinct_keys(entries),
        0 <= i < entries.len(),
    ensures
        entry_map(entries).contains_key(entries[i].0@),
        entry_map(entries)[entries[i].0@] == entries[i].1,
{
    let key = entries[i].0@;
    assert(position(entries, key, i));
    let found = choose|j: int| position(entries, key, j);
    assert(found == i);
}

/// Adding an entry under a new key adds it to the map.
pub proof fn lemma_push<V>(entries: Seq<(String, V)>, key: String, value: V)
    requires
        distinct_keys(entries),
        !entry_map(entries).contains_key(key@),
    ensures
        distinct_keys(entries.push((key, value))),
        entry_map(entries.push((key, value))) == entry_map(entries).insert(key@, value),
{
    let longer = entries.push((key, value));
    assert forall|i: int| 0 <= i < entries.len() implies (#[trigger] entries[i]).0@ != key@ by {
        lemma_entry(entries, i);
    }
    assert(distinct_keys(longer));
    assert forall|name: Seq<char>| #[trigger]
        entry_map(longer).contains_key(name) <==> entry_map(entries).insert(
            key@,
            value,
        ).contains_key(name) by {
        if entry_map(longer).contains_key(name) && name != key@ {
            let i = choose|i: int| position(longer, name, i);
            assert(position(entries, name, i));
        }
        if entry_map(entries).contains_key(name) {
            let i = choose|i: int| position(entries, name, i);
            assert(position(longer, name, i));
        }
        assert(position(longer, key@, entries.len() as int));
    }
    assert forall|name: Seq<char>| #[trigger] entry_map(longer).contains_key(name) implies entry_map(
        longer,
    )[name] == entry_map(entries).insert(key@, value)[name] by {
        let i = choose|i: int| position(longer, name, i);
        lemma_entry(longer, i);
        if i < entries.len() {
            lemma_entry(entries, i);
        }
    }
    assert(entry_map(longer) =~= entry_map(entries).insert(key@, value));
}

proof fn lemma_remove<V>(entries: Seq<(String, V)>, at: int)
    requires
        distinct_keys(entries),
        0 <= at < entries.len(),
    ensures
        distinct_keys(entries.remove(at)),
        entry_map(entries.remove(at)) == entry_map(entries).remove(entries[at].0@),
{
    let key = entries[at].0@;
    let shorter = entries.remove(at);
    assert forall|i: int| 0 <= i < shorter.len() implies (#[trigger] shorter[i]) == entries[if i < at {
        i
    } else {
        i + 1
    }] by {}
    assert(distinct_keys(shorter));
    assert forall|name: Seq<char>| #[trigger]
        entry_map(shorter).contains_key(name) <==> entry_map(entries).remove(key).contains_key(
            name,
        ) by {
        if entry_map(shorter).contains_key(name) {
            let i = choose|i: int| position(shorter, name, i);
            let j = if i < at {
                i
            } else {
                i + 1
            };
            assert(shorter[i] == entries[j]);
            assert(position(entries, name, j));
        }
        if entry_map(entries).contains_key(name) && name != key {
            let i = choose|i: int| position(entries, name, i);
            let j = if i < at {
                i
            } else {
                i - 1
            };
            assert(shorter[j] == entries[i]);
            assert(position(shorter, name, j));
        }
    }
    assert forall|name: Seq<char>| #[trigger]
        entry_map(shorter).contains_key(name) implies entry_map(shorter)[name] == entry_map(
        entries,
    ).remove(key)[name] by {
        let i = choose|i: int| position(shorter, name, i);
        lemma_entry(shorter, i);
        lemma_entry(
            entries,
            if i < at {
                i
            } else {
                i + 1
            },
        );
    }
    assert(entry_map(shorter) =~= entry_map(entries).remove(key));
}

impl<V> View for StringMap<V> {
    type V = Map<Seq<char>, V>;

    closed spec fn view(&self) -> Map<Seq<char>, V> {
        entry_map(self.entries@)
    }
}

impl<V> StringMap<V> {
    #[verifier::type_invariant]
    spec fn no_key_twice(self) -> bool {
        distinct_keys(self.entries@)
    }

    /// The empty map.
    pub fn new() -> (map: Self)
        ensures
            map@ == Map::<Seq<char>, V>::empty(),
    {
        let map = StringMap { entries: Vec::new() };
        assert(map@ =~= Map::<Seq<char>, V>::empty());
        map
    }

    fn find(&self, key: &str) -> (found: Option<usize>)
        ensures
            match found {
                Some(i) => i < self.entries@.len() && self.entries@[i as int].0@ == key@
                    && self@.contains_key(key@) && self@[key@] == self.entries@[i as int].1,
                None => !self@.contains_key(key@),
            },
    {
        proof {
            use_type_invariant(self);
        }
        let mut i: usize = 0;
        while i < self.entries.len()
            invariant
                i <= self.entries.len(),
                distinct_keys(self.entries@),
                forall|j: int| 0 <= j < i ==> (#[trigger] self.entries@[j]).0@ != key@,
            decreases self.entries.len() - i,
        {
            if self.entries[i].0.as_str().eq(key) {
                proof {
                    lemma_entry(self.entries@, i as int);
                }
                return Some(i);
            }
            i = i + 1;
        }
        None
    }

    /// The entries, each key once.
    pub fn entries(&self) -> (entries: &Vec<(String, V)>)
        ensures
            distinct_keys(entries@),
            entry_map(entries@) == self@,
    {
        proof {
            use_type_invariant(self);
        }
        &self.entries
    }

    /// The value under `key`.
    pub fn get(&self, key: &str) -> (value: Option<&V>)
        ensures
            match value {
                Some(value) => self@.contains_key(key@) && *value == self@[key@],
                None => !self@.contains_key(key@),
            },
    {
        match self.find(key) {
            Some(i) => Some(&self.entries[i].1),
            None => None,
        }
    }

    /// Takes the value under `key` out of the map.
    pub fn remove(&mut self, key: &str) -> (value: Option<V>)
        ensures
            final(self)@ == old(self)@.remove(key@),
            match value {
                Some(value) => old(self)@.contains_key(key@) && value == old(self)@[key@],
                None => !old(self)@.contains_key(key@),
            },
    {
        match self.find(key) {
            Some(i) => {
                proof {
                    use_type_invariant(&*self);
                    lemma_remove(self.entries@, i as int);
                }
                let mut entries: Vec<(String, V)> = Vec::new();
                std::mem::swap(&mut entries, &mut self.entries);
                let entry = entries.remove(i);
                self.entries = entries;
                Some(entry.1)
            },
            None => {
                assert(self@ =~= self@.remove(key@));
                None
            },
        }
    }

    /// Puts `value` under `key`, in place of what was there.
    pub fn insert(&mut self, key: String, value: V)
        ensures
            final(self)@ == old(self)@.insert(key@, value),
    {
        let ghost before = self@;
        self.remove(key.as_str());
        proof {
            use_type_invariant(&*self);
            lemma_push(self.entries@, key, value);
            assert(before.remove(key@).insert(key@, value) =~= before.insert(key@, value));
        }
        let mut entries: Vec<(String, V)> = Vec::new();
        std::mem::swap(&mut entries, &mut self.entries);
        entries.push((key, value));
        self.entries = entries;
    }
}

/// The map without the entries whose value is this text.
pub open spec fn without_value(map: Map<Seq<char>, String>, value: Seq<char>) -> Map<
    Seq<char>,
    String,
> {
    map.restrict(Set::new(|key: Seq<char>| map.contains_key(key) && map[key]@ != value))
}

impl StringMap<String> {
    /// Drops every entry whose value is `value`.
    pub fn remove_value(&mut self, value: &str)
        ensures
            final(self)@ == without_value(old(self)@, value@),
    {
        proof {
            use_type_invariant(&*self);
        }
        let ghost before = self@;
        let mut entries: Vec<(String, String)> = Vec::new();
        std::mem::swap(&mut entries, &mut self.entries);
        let mut i: usize = 0;
        while i < entries.len()
            invariant
                i <= entries.len(),
                distinct_keys(entries@),
                entry_map(entries@).submap_of(before),
                forall|key: Seq<char>|
                    before.contains_key(key) && !(#[trigger] entry_map(entries@).contains_key(key))
                        ==> before[key]@ == value@,
                forall|j: int| 0 <= j < i ==> (#[trigger] entries@[j]).1@ != value@,
            decreases entries.len() - i,
        {
            proof {
                lemma_entry(entries@, i as int);
                lemma_remove(entries@, i as int);
            }
            if entries[i].1.as_str().eq(value) {
                entries.remove(i);
            } else {
                i = i + 1;
            }
        }
        proof {
            let kept = entry_map(entries@);
            assert forall|key: Seq<char>| #[trigger] kept.contains_key(key) implies before.contains_key(
                key,
            ) && before[key]@ != value@ && kept[key] == before[key] by {
                let j = choose|j: int| position(entries@, key, j);
                lemma_entry(entries@, j);
            }
            assert(kept =~= without_value(before, value@));
        }
        self.entries = entries;
    }
}

} // verus!

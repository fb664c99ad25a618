//! A small map keyed by text, kept as a list of entries with distinct keys.

use vstd::prelude::*;

verus! {

/// The map that the entries make: a later entry for a key replaces an
/// earlier one.
pub open spec fn map_of<V>(entries: Seq<(String, V)>) -> Map<Seq<char>, V>
    decreases entries.len(),
{
    if entries.len() == 0 {
        Map::empty()
    } else {
        map_of(entries.drop_last()).insert(entries.last().0@, entries.last().1)
    }
}

/// No key occurs twice among the entries.
pub open spec fn keys_distinct<V>(entries: Seq<(String, V)>) -> bool {
    forall|i: int, j: int| 0 <= i < j < entries.len() ==> entries[i].0@ != entries[j].0@
}

/// A map from text keys to values. Each key occurs in one entry at most.
///
/// It stands where a `HashMap<String, V>` would: vstd specifies `HashMap`
/// only for keys of which `obeys_key_model` is known (integers, `bool` and
/// boxes of them), and nothing establishes it of `String` short of assuming
/// it, so nothing could be proved of a `HashMap` keyed by text.
pub struct KeyedList<V> {
    entries: Vec<(String, V)>,
}

proof fn lemma_map_of_has<V>(e: Seq<(String, V)>, i: int)
    requires
        keys_distinct(e),
        0 <= i < e.len(),
    ensures
        map_of(e).contains_key(e[i].0@),
        map_of(e)[e[i].0@] == e[i].1,
    decreases e.len(),
{
    if i < e.len() - 1 {
        lemma_map_of_has(e.drop_last(), i);
    }
}

proof fn lemma_map_of_lacks<V>(e: Seq<(String, V)>, k: Seq<char>)
    requires
        forall|i: int| 0 <= i < e.len() ==> e[i].0@ != k,
    ensures
        !map_of(e).contains_key(k),
    decreases e.len(),
{
    if e.len() > 0 {
        lemma_map_of_lacks(e.drop_last(), k);
    }
}

proof fn lemma_map_of_update<V>(e: Seq<(String, V)>, i: int, x: (String, V))
    requires
        keys_distinct(e),
        0 <= i < e.len(),
        e[i].0@ == x.0@,
    ensures
        map_of(e.update(i, x)) == map_of(e).insert(x.0@, x.1),
    decreases e.len(),
{
    let u = e.update(i, x);
    if i == e.len() - 1 {
        assert(u.drop_last() =~= e.drop_last());
        assert(map_of(u) =~= map_of(e).insert(x.0@, x.1));
    } else {
        lemma_map_of_update(e.drop_last(), i, x);
        assert(u.drop_last() =~= e.drop_last().update(i, x));
        assert(e.last().0@ != x.0@);
        assert(map_of(u) =~= map_of(e).insert(x.0@, x.1));
    }
}

impl<V> KeyedList<V> {
    /// The map that the list holds.
    pub closed spec fn view_map(&self) -> Map<Seq<char>, V> {
        map_of(self.entries@)
    }

    #[verifier::type_invariant]
    closed spec fn inv(self) -> bool {
        keys_distinct(self.entries@)
    }

    /// The empty map.
    pub fn new() -> (m: Self)
        ensures
            m.view_map() == Map::<Seq<char>, V>::empty(),
    {
        KeyedList { entries: Vec::new() }
    }

    fn find(&self, key: &str) -> (r: Option<usize>)
        ensures
            match r {
                Some(i) => i < self.entries@.len() && self.entries@[i as int].0@ == key@,
                None => forall|i: int| 0 <= i < self.entries@.len() ==> self.entries@[i].0@ != key@,
            },
    {
        let mut i: usize = 0;
        while i < self.entries.len()
            invariant
                i <= self.entries@.len(),
                forall|j: int| 0 <= j < i ==> self.entries@[j].0@ != key@,
            decreases self.entries.len() - i,
        {
            if string_eq_str(&self.entries[i].0, key) {
                return Some(i);
            }
            i = i + 1;
        }
        None
    }

    /// Whether the key has a value.
    pub fn contains_key(&self, key: &str) -> (r: bool)
        ensures
            r == self.view_map().contains_key(key@),
    {
        proof {
            use_type_invariant(self);
        }
        match self.find(key) {
            Some(i) => {
                proof {
                    lemma_map_of_has(self.entries@, i as int);
                }
                true
            },
            None => {
                proof {
                    lemma_map_of_lacks(self.entries@, key@);
                }
                false
            },
        }
    }

    /// The value of the key, if it has one.
    pub fn get(&self, key: &str) -> (r: Option<&V>)
        ensures
            match r {
                Some(v) => self.view_map().contains_key(key@) && *v == self.view_map()[key@],
                None => !self.view_map().contains_key(key@),
            },
    {
        proof {
            use_type_invariant(self);
        }
        match self.find(key) {
            Some(i) => {
                proof {
                    lemma_map_of_has(self.entries@, i as int);
                }
                Some(&self.entries[i].1)
            },
            None => {
                proof {
                    lemma_map_of_lacks(self.entries@, key@);
                }
                None
            },
        }
    }

    /// Gives the key the value, replacing the value it had.
    pub fn insert(&mut self, key: String, value: V)
        ensures
            final(self).view_map() == old(self).view_map().insert(key@, value),
    {
        proof {
            use_type_invariant(&*self);
        }
        match self.find(key.as_str()) {
            Some(i) => {
                let ghost old_entries = self.entries@;
                proof {
                    lemma_map_of_update(old_entries, i as int, (key, value));
                }
                let mut entries = Vec::new();
                std::mem::swap(&mut entries, &mut self.entries);
                entries.set(i, (key, value));
                assert(entries@ == old_entries.update(i as int, (key, value)));
                assert(keys_distinct(entries@));
                self.entries = entries;
            },
            None => {
                let ghost old_entries = self.entries@;
                let mut entries = Vec::new();
                std::mem::swap(&mut entries, &mut self.entries);
                entries.push((key, value));
                assert(entries@.drop_last() =~= old_entries);
                assert(keys_distinct(entries@));
                self.entries = entries;
            },
        }
    }
}

/// Whether a string equals a string slice.
pub fn string_eq_str(s: &String, t: &str) -> (r: bool)
    ensures
        r == (s@ == t@),
{
    crate::text::text_is(s.as_str(), t)
}

} // verus!

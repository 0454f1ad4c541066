//! A string-keyed dictionary.
use vstd::prelude::*;

verus! {

/// What a list of key-value entries maps each key to.
pub open spec fn entries_map<V>(entries: Seq<(String, V)>) -> Map<Seq<char>, V>
    decreases entries.len(),
{
    if entries.len() == 0 {
        Map::empty()
    } else {
        entries_map(entries.drop_last()).insert(entries.last().0@, entries.last().1)
    }
}

/// No key occurs twice.
pub open spec fn keys_distinct<V>(entries: Seq<(String, V)>) -> bool {
    forall|i: int, j: int|
        0 <= i < j < entries.len() ==> (#[trigger] entries[i]).0@ != (#[trigger] entries[j]).0@
}

/// Position `i` holds `key`.
pub open spec fn holds_key<V>(entries: Seq<(String, V)>, i: int, key: Seq<char>) -> bool {
    0 <= i < entries.len() && entries[i].0@ == key
}

/// With distinct keys, every entry is in the map and the map has nothing else.
pub proof fn lemma_entries_map<V>(entries: Seq<(String, V)>)
    requires
        keys_distinct(entries),
    ensures
        forall|i: int|
            #![trigger entries[i]]
            0 <= i < entries.len() ==> entries_map(entries).contains_key(entries[i].0@)
                && entries_map(entries)[entries[i].0@] == entries[i].1,
        forall|key: Seq<char>| #[trigger]
            entries_map(entries).contains_key(key) ==> exists|i: int| holds_key(entries, i, key),
        entries_map(entries).dom().finite(),
        entries_map(entries).dom().len() == entries.len(),
    decreases entries.len(),
{
    if entries.len() > 0 {
        let front = entries.drop_last();
        lemma_entries_map(front);
        assert forall|key: Seq<char>| #[trigger] entries_map(entries).contains_key(key) implies exists|
            i: int,
        | holds_key(entries, i, key) by {
            if key == entries.last().0@ {
                assert(holds_key(entries, entries.len() - 1, key));
            } else {
                let i = choose|i: int| holds_key(front, i, key);
                assert(holds_key(entries, i, key));
            }
        }
        assert(!entries_map(front).contains_key(entries.last().0@)) by {
            if entries_map(front).contains_key(entries.last().0@) {
                let i = choose|i: int| holds_key(front, i, entries.last().0@);
                assert(entries[i].0@ != entries[entries.len() - 1].0@);
            }
        }
        assert forall|i: int| #![trigger entries[i]] 0 <= i < entries.len() implies entries_map(
            entries,
        ).contains_key(entries[i].0@) && entries_map(entries)[entries[i].0@] == entries[i].1 by {
            if i < front.len() {
                assert(front[i] == entries[i]);
            }
        }
    }
}

/// Replacing the value at one position replaces what its key is mapped to.
proof fn lemma_replaced<V>(before: Seq<(String, V)>, after: Seq<(String, V)>, at: int)
    requires
        keys_distinct(before),
        keys_distinct(after),
        0 <= at < before.len(),
        after.len() == before.len(),
        after[at].0@ == before[at].0@,
        forall|i: int| 0 <= i < before.len() && i != at ==> after[i] == before[i],
    ensures
        entries_map(after) == entries_map(before).insert(after[at].0@, after[at].1),
{
    lemma_entries_map(before);
    lemma_entries_map(after);
    let replaced = entries_map(before).insert(after[at].0@, after[at].1);
    assert forall|key: Seq<char>|
        entries_map(after).contains_key(key) <==> replaced.contains_key(key) by {
        if entries_map(after).contains_key(key) {
            let i = choose|i: int| holds_key(after, i, key);
            assert(before[i].0@ == key);
        }
        if replaced.contains_key(key) && key != after[at].0@ {
            let i = choose|i: int| holds_key(before, i, key);
            assert(after[i].0@ == key);
        }
        assert(entries_map(after).contains_key(after[at].0@));
    }
    assert forall|key: Seq<char>| #[trigger] entries_map(after).contains_key(key) implies entries_map(
        after,
    )[key] == replaced[key] by {
        let i = choose|i: int| holds_key(after, i, key);
        assert(after[i].0@ == key);
        assert(before[i].0@ == key);
    }
    assert(entries_map(after) =~= replaced);
}

/// A string-to-value mapping.
#[derive(Debug)]
pub struct Dict<V> {
    pub(crate) entries: Vec<(String, V)>,
}

impl<V> View for Dict<V> {
    type V = Map<Seq<char>, V>;

    closed spec fn view(&self) -> Map<Seq<char>, V> {
        entries_map(self.entries@)
    }
}

impl<V> Dict<V> {
    #[verifier::type_invariant]
    pub(crate) closed spec fn inv(self) -> bool {
        keys_distinct(self.entries@)
    }

    /// The view, told by the entries.
    pub(crate) proof fn lemma_view(self)
        ensures
            self@ == entries_map(self.entries@),
    {
    }

    /// The entries, in the order in which their keys came.
    pub(crate) fn entries(&self) -> (entries: &Vec<(String, V)>)
        ensures
            *entries == self.entries,
            keys_distinct(entries@),
            self@ == entries_map(entries@),
    {
        proof {
            use_type_invariant(self);
        }
        &self.entries
    }

    /// The dictionary whose entries are `entries`.
    pub(crate) fn from_entries(entries: Vec<(String, V)>) -> (dict: Self)
        requires
            keys_distinct(entries@),
        ensures
            dict.entries == entries,
    {
        Dict { entries }
    }

    /// Creates an empty dictionary.
    pub fn new() -> (dict: Self)
        ensures
            dict@ == Map::<Seq<char>, V>::empty(),
    {
        Dict { entries: Vec::new() }
    }

    fn position(&self, key: &str) -> (at: Option<usize>)
        ensures
            match at {
                Some(i) => holds_key(self.entries@, i as int, key@),
                None => forall|i: int| !#[trigger] holds_key(self.entries@, i, key@),
            },
    {
        let wanted: String = key.to_owned();
        let mut i: usize = 0;
        while i < self.entries.len()
            invariant
                i <= self.entries.len(),
                wanted@ == key@,
                forall|j: int| 0 <= j < i ==> !#[trigger] holds_key(self.entries@, j, key@),
            decreases self.entries.len() - i,
        {
            if self.entries[i].0 == wanted {
                return Some(i);
            }
            i += 1;
        }
        None
    }

    /// Looks a key up.
    pub fn get(&self, key: &str) -> (value: Option<&V>)
        ensures
            match value {
                Some(v) => self@.contains_key(key@) && *v == self@[key@],
                None => !self@.contains_key(key@),
            },
    {
        proof {
            use_type_invariant(self);
            lemma_entries_map(self.entries@);
        }
        match self.position(key) {
            Some(i) => Some(&self.entries[i].1),
            None => None,
        }
    }

    /// Checks whether a key is present.
    pub fn contains_key(&self, key: &str) -> (present: bool)
        ensures
            present == self@.contains_key(key@),
    {
        self.get(key).is_some()
    }

    /// Maps `key` to `value`, in place of whatever `key` was mapped to before.
    pub fn insert(&mut self, key: String, value: V)
        ensures
            final(self)@ == old(self)@.insert(key@, value),
    {
        proof {
            use_type_invariant(&*self);
        }
        let at = self.position(key.as_str());
        let mut entries: Vec<(String, V)> = Vec::new();
        std::mem::swap(&mut entries, &mut self.entries);
        proof {
            lemma_entries_map(entries@);
        }
        let ghost before = entries@;
        match at {
            Some(i) => {
                entries.set(i, (key, value));
                proof {
                    lemma_entries_map(entries@);
                    lemma_replaced(before, entries@, i as int);
                }
            },
            None => {
                entries.push((key, value));
                proof {
                    assert(entries@.drop_last() =~= before);
                    assert forall|i: int, j: int| 0 <= i < j < entries@.len() implies (
                    #[trigger] entries@[i]).0@ != (#[trigger] entries@[j]).0@ by {
                        if j == before.len() {
                            assert(!holds_key(before, i, key@));
                        }
                    }
                }
            },
        }
        self.entries = entries;
    }

    /// The keys, each once.
    pub fn keys(&self) -> (keys: Vec<String>)
        ensures
            forall|key: Seq<char>| #[trigger]
                self@.contains_key(key) <==> exists|i: int|
                    0 <= i < keys@.len() && (#[trigger] keys@[i])@ == key,
            forall|i: int, j: int|
                0 <= i < j < keys@.len() ==> (#[trigger] keys@[i])@ != (#[trigger] keys@[j])@,
    {
        proof {
            use_type_invariant(self);
            lemma_entries_map(self.entries@);
        }
        let mut keys: Vec<String> = Vec::new();
        let mut i: usize = 0;
        while i < self.entries.len()
            invariant
                i <= self.entries.len(),
                keys.len() == i,
                forall|j: int| 0 <= j < i ==> (#[trigger] keys@[j])@ == self.entries@[j].0@,
            decreases self.entries.len() - i,
        {
            keys.push(self.entries[i].0.clone());
            i += 1;
        }
        proof {
            assert forall|key: Seq<char>| #[trigger]
                self@.contains_key(key) <==> exists|i: int|
                    0 <= i < keys@.len() && (#[trigger] keys@[i])@ == key by {
                if self@.contains_key(key) {
                    let i = choose|i: int| holds_key(self.entries@, i, key);
                    assert(keys@[i]@ == key);
                }
                if exists|i: int| 0 <= i < keys@.len() && (#[trigger] keys@[i])@ == key {
                    let i = choose|i: int| 0 <= i < keys@.len() && (#[trigger] keys@[i])@ == key;
                    assert(self.entries@[i].0@ == key);
                }
            }
            assert forall|i: int, j: int| 0 <= i < j < keys@.len() implies (#[trigger] keys@[i])@
                != (#[trigger] keys@[j])@ by {
                assert(self.entries@[i].0@ != self.entries@[j].0@);
            }
        }
        keys
    }

    /// Checks whether there are no keys.
    pub fn is_empty(&self) -> (empty: bool)
        ensures
            empty == (self@ == Map::<Seq<char>, V>::empty()),
    {
        proof {
            use_type_invariant(self);
            lemma_entries_map(self.entries@);
            if self.entries@.len() > 0 {
                assert(self@.contains_key(self.entries@[0].0@));
            }
        }
        self.entries.len() == 0
    }

    /// The number of keys.
    pub fn len(&self) -> (n: usize)
        ensures
            n == self@.dom().len(),
            self@.dom().finite(),
    {
        proof {
            use_type_invariant(self);
            lemma_entries_map(self.entries@);
        }
        self.entries.len()
    }
}

impl<V> Default for Dict<V> {
    fn default() -> (dict: Self)
        ensures
            dict@ == Map::<Seq<char>, V>::empty(),
    {
        Dict::new()
    }
}

} // verus!

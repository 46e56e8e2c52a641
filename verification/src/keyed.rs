//! Maps and sets whose keys are texts, addresses and numbers: association lists without repeated keys.
use vstd::prelude::*;

verus! {

/// What a key of a `KeyMap` offers: equality of views.
pub trait MapKey: View + Sized {
    /// Whether both keys have the same view.
    fn same_key(&self, other: &Self) -> (same: bool)
        ensures
            same == (self@ == other@),
    ;
}

impl MapKey for String {
    fn same_key(&self, other: &Self) -> (same: bool) {
        *self == *other
    }
}

/// A map from keys, taken by their views, to values.
pub struct KeyMap<K: MapKey, V> {
    entries: Vec<(K, V)>,
}

/// No two entries have the same key.
spec fn distinct_keys<K: MapKey, V>(entries: Seq<(K, V)>) -> bool {
    forall|i: int, j: int|
        #![trigger entries[i], entries[j]]
        0 <= i < j < entries.len() ==> entries[i].0@ != entries[j].0@
}

spec fn has_key<K: MapKey, V>(entries: Seq<(K, V)>, key: <K as View>::V) -> bool {
    exists|i: int| 0 <= i < entries.len() && (#[trigger] entries[i]).0@ == key
}

spec fn index_of<K: MapKey, V>(entries: Seq<(K, V)>, key: <K as View>::V) -> int {
    choose|i: int| 0 <= i < entries.len() && (#[trigger] entries[i]).0@ == key
}

spec fn map_of<K: MapKey, V>(entries: Seq<(K, V)>) -> Map<<K as View>::V, V> {
    Map::new(|key: <K as View>::V| has_key(entries, key), |key| entries[index_of(entries, key)].1)
}

impl<K: MapKey, V> View for KeyMap<K, V> {
    type V = Map<<K as View>::V, V>;

    closed spec fn view(&self) -> Map<<K as View>::V, V> {
        map_of(self.entries@)
    }
}

proof fn lemma_entry<K: MapKey, V>(entries: Seq<(K, V)>, i: int)
    requires
        distinct_keys(entries),
        0 <= i < entries.len(),
    ensures
        map_of(entries).contains_key(entries[i].0@),
        map_of(entries)[entries[i].0@] == entries[i].1,
{
    let key = entries[i].0@;
    assert(has_key(entries, key));
    let at = index_of(entries, key);
    assert(entries[at].0@ == key);
    if at < i {
        assert(entries[at].0@ != entries[i].0@);
    }
    if i < at {
        assert(entries[i].0@ != entries[at].0@);
    }
}

proof fn lemma_push<K: MapKey, V>(entries: Seq<(K, V)>, key: K, value: V)
    requires
        distinct_keys(entries),
        !map_of(entries).contains_key(key@),
    ensures
        distinct_keys(entries.push((key, value))),
        map_of(entries.push((key, value))) == map_of(entries).insert(key@, value),
{
    let pushed = entries.push((key, value));
    assert forall|i: int, j: int|
        #![trigger pushed[i], pushed[j]]
        0 <= i < j < pushed.len() implies pushed[i].0@ != pushed[j].0@ by {
        if j == entries.len() {
            assert(entries[i].0@ != key@) by {
                if entries[i].0@ == key@ {
                    assert(has_key(entries, key@));
                }
            }
        } else {
            assert(entries[i].0@ != entries[j].0@);
        }
    }
    assert forall|k: <K as View>::V| has_key(pushed, k) == (has_key(entries, k) || k == key@) by {
        if has_key(entries, k) {
            let i = index_of(entries, k);
            assert(pushed[i].0@ == k);
        }
        if k == key@ {
            assert(pushed[entries.len() as int].0@ == k);
        }
        if has_key(pushed, k) && k != key@ {
            let i = index_of(pushed, k);
            assert(pushed[i].0@ == k);
            assert(entries[i].0@ == k);
        }
    }
    assert forall|k: <K as View>::V| has_key(pushed, k) implies map_of(pushed)[k] == map_of(
        entries,
    ).insert(key@, value)[k] by {
        let i = index_of(pushed, k);
        assert(pushed[i].0@ == k);
        if i < entries.len() {
            assert(entries[i].0@ == k);
            lemma_entry(entries, i);
        }
    }
    assert(map_of(pushed) =~= map_of(entries).insert(key@, value));
}

proof fn lemma_remove<K: MapKey, V>(entries: Seq<(K, V)>, at: int)
    requires
        distinct_keys(entries),
        0 <= at < entries.len(),
    ensures
        distinct_keys(entries.remove(at)),
        map_of(entries.remove(at)) == map_of(entries).remove(entries[at].0@),
{
    let kept = entries.remove(at);
    let key = entries[at].0@;
    assert forall|i: int| 0 <= i < kept.len() implies (#[trigger] kept[i]) == entries[if i < at {
        i
    } else {
        i + 1
    }] by {}
    assert forall|i: int, j: int|
        #![trigger kept[i], kept[j]]
        0 <= i < j < kept.len() implies kept[i].0@ != kept[j].0@ by {
        let a: int = if i < at { i } else { i + 1 };
        let b: int = if j < at { j } else { j + 1 };
        assert(entries[a].0@ != entries[b].0@);
    }
    assert forall|k: <K as View>::V| has_key(kept, k) == (has_key(entries, k) && k != key) by {
        if has_key(kept, k) {
            let i = index_of(kept, k);
            assert(kept[i].0@ == k);
            let a: int = if i < at { i } else { i + 1 };
            assert(entries[a].0@ == k);
            if a < at {
                assert(entries[a].0@ != entries[at].0@);
            } else {
                assert(entries[at].0@ != entries[a].0@);
            }
        }
        if has_key(entries, k) && k != key {
            let a = index_of(entries, k);
            assert(entries[a].0@ == k);
            let i: int = if a < at { a } else { a - 1 };
            assert(kept[i].0@ == k);
        }
    }
    assert forall|k: <K as View>::V| has_key(kept, k) implies map_of(kept)[k] == map_of(
        entries,
    )[k] by {
        let i = index_of(kept, k);
        assert(kept[i].0@ == k);
        let a: int = if i < at { i } else { i + 1 };
        assert(entries[a].0@ == k);
        lemma_entry(entries, a);
    }
    assert(map_of(kept) =~= map_of(entries).remove(key));
}

impl<K: MapKey, V> KeyMap<K, V> {
    #[verifier::type_invariant]
    spec fn inv(self) -> bool {
        distinct_keys(self.entries@)
    }

    /// The entries in the order in which they are held.
    pub closed spec fn seq(self) -> Seq<(K, V)> {
        self.entries@
    }

    /// The map without entries.
    pub fn new() -> (map: Self)
        ensures
            map@ == Map::<<K as View>::V, V>::empty(),
            map.seq().len() == 0,
    {
        let map = KeyMap { entries: Vec::new() };
        assert(map@ =~= Map::<<K as View>::V, V>::empty());
        map
    }

    /// The number of entries, which are those of the map.
    pub fn len(&self) -> (len: usize)
        ensures
            len == self.seq().len(),
            (len == 0) == (self@ == Map::<<K as View>::V, V>::empty()),
            forall|i: int|
                0 <= i < self.seq().len() ==> self@.contains_key((#[trigger] self.seq()[i]).0@)
                    && self@[self.seq()[i].0@] == self.seq()[i].1,
            forall|key: <K as View>::V| #[trigger]
                self@.contains_key(key) ==> exists|i: int|
                    0 <= i < self.seq().len() && (#[trigger] self.seq()[i]).0@ == key,
    {
        proof {
            use_type_invariant(self);
            assert forall|i: int| 0 <= i < self.seq().len() implies self@.contains_key(
                (#[trigger] self.seq()[i]).0@,
            ) && self@[self.seq()[i].0@] == self.seq()[i].1 by {
                lemma_entry(self.entries@, i);
            }
            assert forall|key: <K as View>::V| #[trigger]
                self@.contains_key(key) implies exists|i: int|
                0 <= i < self.seq().len() && (#[trigger] self.seq()[i]).0@ == key by {
                let i = index_of(self.entries@, key);
                assert(self.seq()[i].0@ == key);
            }
            if self.entries@.len() > 0 {
                lemma_entry(self.entries@, 0);
            } else {
                assert(self@ =~= Map::<<K as View>::V, V>::empty());
            }
        }
        self.entries.len()
    }

    /// The entry at `index`.
    pub fn entry(&self, index: usize) -> (entry: (&K, &V))
        requires
            index < self.seq().len(),
        ensures
            *entry.0 == self.seq()[index as int].0,
            *entry.1 == self.seq()[index as int].1,
            self@.contains_key(entry.0@),
            self@[entry.0@] == *entry.1,
    {
        proof {
            use_type_invariant(self);
            lemma_entry(self.entries@, index as int);
        }
        (&self.entries[index].0, &self.entries[index].1)
    }

    fn position(&self, key: &K) -> (at: Option<usize>)
        ensures
            match at {
                Some(i) => i < self.entries@.len() && self.entries@[i as int].0@ == key@
                    && self@.contains_key(key@) && self@[key@] == self.entries@[i as int].1,
                None => !self@.contains_key(key@),
            },
    {
        proof {
            use_type_invariant(self);
        }
        let mut i: usize = 0;
        while i < self.entries.len()
            invariant
                i <= self.entries@.len(),
                distinct_keys(self.entries@),
                forall|j: int| 0 <= j < i ==> (#[trigger] self.entries@[j]).0@ != key@,
            decreases self.entries@.len() - i,
        {
            if self.entries[i].0.same_key(key) {
                proof {
                    lemma_entry(self.entries@, i as int);
                }
                return Some(i);
            }
            i += 1;
        }
        None
    }

    /// Whether there is an entry under `key`.
    pub fn contains_key(&self, key: &K) -> (found: bool)
        ensures
            found == self@.contains_key(key@),
    {
        self.position(key).is_some()
    }

    /// The value under `key`.
    pub fn get(&self, key: &K) -> (value: Option<&V>)
        ensures
            match value {
                Some(found) => self@.contains_key(key@) && *found == self@[key@],
                None => !self@.contains_key(key@),
            },
    {
        match self.position(key) {
            Some(at) => Some(&self.entries[at].1),
            None => None,
        }
    }

    /// Takes the entry under `key` out, if there is one.
    pub fn remove(&mut self, key: &K)
        ensures
            final(self)@ == old(self)@.remove(key@),
    {
        proof {
            use_type_invariant(&*self);
        }
        match self.position(key) {
            Some(at) => {
                proof {
                    lemma_remove(self.entries@, at as int);
                }
                let mut entries: Vec<(K, V)> = Vec::new();
                std::mem::swap(&mut self.entries, &mut entries);
                entries.remove(at);
                self.entries = entries;
            },
            None => {
                assert(self@ =~= self@.remove(key@));
            },
        }
    }

    /// Puts `value` under `key`, in place of what was there.
    pub fn insert(&mut self, key: K, value: V)
        ensures
            final(self)@ == old(self)@.insert(key@, value),
    {
        let ghost before = self@;
        self.remove(&key);
        proof {
            use_type_invariant(&*self);
            lemma_push(self.entries@, key, value);
            assert(before.remove(key@).insert(key@, value) =~= before.insert(key@, value));
        }
        let mut entries: Vec<(K, V)> = Vec::new();
        std::mem::swap(&mut self.entries, &mut entries);
        entries.push((key, value));
        self.entries = entries;
    }

    /// Takes every entry out.
    pub fn clear(&mut self)
        ensures
            final(self)@ == Map::<<K as View>::V, V>::empty(),
    {
        self.entries = Vec::new();
        assert(self@ =~= Map::<<K as View>::V, V>::empty());
    }
}

/// A set of keys, taken by their views.
pub struct KeySet<K: MapKey> {
    members: KeyMap<K, ()>,
}

impl<K: MapKey> View for KeySet<K> {
    type V = Set<<K as View>::V>;

    closed spec fn view(&self) -> Set<<K as View>::V> {
        self.members@.dom()
    }
}

impl<K: MapKey> KeySet<K> {
    /// The members in the order in which they are held.
    pub closed spec fn seq(self) -> Seq<(K, ())> {
        self.members.seq()
    }

    /// The set without members.
    pub fn new() -> (set: Self)
        ensures
            set@ == Set::<<K as View>::V>::empty(),
    {
        let set = KeySet { members: KeyMap::new() };
        assert(set@ =~= Set::<<K as View>::V>::empty());
        set
    }

    /// Whether `key` is a member.
    pub fn contains(&self, key: &K) -> (found: bool)
        ensures
            found == self@.contains(key@),
    {
        self.members.contains_key(key)
    }

    /// Makes `key` a member.
    pub fn insert(&mut self, key: K)
        ensures
            final(self)@ == old(self)@.insert(key@),
    {
        self.members.insert(key, ());
        assert(self@ =~= old(self)@.insert(key@));
    }

    /// Takes `key` out.
    pub fn remove(&mut self, key: &K)
        ensures
            final(self)@ == old(self)@.remove(key@),
    {
        self.members.remove(key);
        assert(self@ =~= old(self)@.remove(key@));
    }

    /// Takes every member out.
    pub fn clear(&mut self)
        ensures
            final(self)@ == Set::<<K as View>::V>::empty(),
    {
        self.members.clear();
        assert(self@ =~= Set::<<K as View>::V>::empty());
    }

    /// The number of members, which are those of the set.
    pub fn len(&self) -> (len: usize)
        ensures
            len == self.seq().len(),
            forall|i: int|
                0 <= i < self.seq().len() ==> self@.contains((#[trigger] self.seq()[i]).0@),
            forall|key: <K as View>::V| #[trigger]
                self@.contains(key) ==> exists|i: int|
                    0 <= i < self.seq().len() && (#[trigger] self.seq()[i]).0@ == key,
    {
        let len: usize = self.members.len();
        assert forall|key: <K as View>::V| #[trigger] self@.contains(key) implies exists|i: int|
            0 <= i < self.seq().len() && (#[trigger] self.seq()[i]).0@ == key by {
            assert(self.members@.contains_key(key));
            let i = choose|i: int|
                0 <= i < self.members.seq().len() && (#[trigger] self.members.seq()[i]).0@ == key;
            assert(self.seq()[i].0@ == key);
        }
        len
    }

    /// The member at `index`.
    pub fn member(&self, index: usize) -> (key: &K)
        requires
            index < self.seq().len(),
        ensures
            *key == self.seq()[index as int].0,
            self@.contains(key@),
    {
        self.members.entry(index).0
    }
}

} // verus!

//! A map from strings to values, kept as a list of entries whose keys are
//! pairwise distinct.
use vstd::prelude::*;
use vstd::string::*;

use crate::text::same;

verus! {

/// A map keyed by text. Its view is the mathematical map from the keys'
/// characters to the values.
pub struct StringMap<V> {
    entries: Vec<(String, V)>,
}

/// Entry `i` of the list is the one with key `k`.
pub open spec fn holds_at<V>(s: Seq<(Seq<char>, V)>, k: Seq<char>, i: int) -> bool {
    0 <= i < s.len() && s[i].0 == k
}

pub open spec fn has_key<V>(s: Seq<(Seq<char>, V)>, k: Seq<char>) -> bool {
    exists|i: int| holds_at(s, k, i)
}

/// The map that a list of entries stands for.
pub open spec fn map_of<V>(s: Seq<(Seq<char>, V)>) -> Map<Seq<char>, V> {
    Map::new(|k: Seq<char>| has_key(s, k), |k: Seq<char>| s[choose|i: int| holds_at(s, k, i)].1)
}

pub open spec fn distinct_keys<V>(s: Seq<(Seq<char>, V)>) -> bool {
    forall|i: int, j: int|
        0 <= i < s.len() && 0 <= j < s.len() && i != j ==> (#[trigger] s[i]).0 != (#[trigger] s[j]).0
}

impl<V> View for StringMap<V> {
    type V = Map<Seq<char>, V>;

    open spec fn view(&self) -> Map<Seq<char>, V> {
        map_of(self.pairs())
    }
}

proof fn lemma_map_at<V>(s: Seq<(Seq<char>, V)>, i: int)
    requires
        distinct_keys(s),
        0 <= i < s.len(),
    ensures
        map_of(s).contains_key(s[i].0),
        map_of(s)[s[i].0] == s[i].1,
{
    assert(holds_at(s, s[i].0, i));
    let j = choose|j: int| holds_at(s, s[i].0, j);
    assert(s[j].0 == s[i].0);
}

impl<V> StringMap<V> {
    #[verifier::type_invariant]
    spec fn keys_are_distinct(self) -> bool {
        distinct_keys(self.pairs())
    }

    /// The entries in the order in which the list keeps them.
    pub closed spec fn pairs(self) -> Seq<(Seq<char>, V)> {
        Seq::new(self.entries@.len(), |i: int| (self.entries@[i].0@, self.entries@[i].1))
    }

    /// The empty map.
    pub fn new() -> (r: Self)
        ensures
            r@ == Map::<Seq<char>, V>::empty(),
            r.pairs().len() == 0,
    {
        let r = StringMap { entries: Vec::new() };
        assert(r@ =~= Map::<Seq<char>, V>::empty());
        r
    }

    fn find(entries: &Vec<(String, V)>, key: &str) -> (r: Option<usize>)
        ensures
            match r {
                Some(i) => i < entries.len() && entries@[i as int].0@ == key@,
                None => forall|i: int| 0 <= i < entries.len() ==> (#[trigger] entries@[i]).0@ != key@,
            },
    {
        let mut i: usize = 0;
        while i < entries.len()
            invariant
                i <= entries.len(),
                forall|j: int| 0 <= j < i ==> (#[trigger] entries@[j]).0@ != key@,
            decreases entries.len() - i,
        {
            if same(entries[i].0.as_str(), key) {
                return Some(i);
            }
            i = i + 1;
        }
        None
    }

    /// The value stored under `key`.
    pub fn get(&self, key: &str) -> (r: Option<&V>)
        ensures
            self@.contains_key(key@) ==> r == Some(&self@[key@]),
            !self@.contains_key(key@) ==> r is None,
    {
        proof {
            use_type_invariant(self);
        }
        match Self::find(&self.entries, key) {
            Some(i) => {
                proof {
                    lemma_map_at(self.pairs(), i as int);
                    assert(self.pairs()[i as int].0 == key@);
                }
                Some(&self.entries[i].1)
            },
            None => {
                assert(forall|i: int|
                    0 <= i < self.pairs().len() ==> (#[trigger] self.pairs()[i]).0
                        == self.entries@[i].0@);
                None
            },
        }
    }

    /// Whether a value is stored under `key`.
    pub fn contains_key(&self, key: &str) -> (r: bool)
        ensures
            r == self@.contains_key(key@),
    {
        self.get(key).is_some()
    }

    /// Stores `value` under `key`, in place of what was there.
    pub fn insert(&mut self, key: String, value: V)
        ensures
            final(self)@ == old(self)@.insert(key@, value),
            forall|i: int|
                #[trigger] holds_at(old(self).pairs(), key@, i) ==> final(self).pairs() == old(
                    self,
                ).pairs().update(i, (key@, value)),
            !old(self)@.contains_key(key@) ==> final(self).pairs() == old(self).pairs().push(
                (key@, value),
            ),
    {
        proof {
            use_type_invariant(&*self);
        }
        let ghost before = self.pairs();
        let mut entries: Vec<(String, V)> = Vec::new();
        std::mem::swap(&mut entries, &mut self.entries);
        let ghost old_entries = entries@;
        let ghost k = key@;
        match Self::find(&entries, key.as_str()) {
            Some(i) => {
                entries.set(i, (key, value));
                let ghost after = Seq::new(entries@.len(), |j: int| (entries@[j].0@, entries@[j].1));
                proof {
                    assert(after =~= before.update(i as int, (k, value)));
                    assert(before[i as int].0 == k);
                    lemma_map_at(before, i as int);
                    lemma_update(before, i as int, k, value);
                }
            },
            None => {
                entries.push((key, value));
                let ghost after = Seq::new(entries@.len(), |j: int| (entries@[j].0@, entries@[j].1));
                proof {
                    assert(after =~= before.push((k, value)));
                    assert(forall|j: int| 0 <= j < before.len() ==> (#[trigger] before[j]).0 == old_entries[j].0@);
                    lemma_push(before, k, value);
                }
            },
        }
        self.entries = entries;
        proof {
            assert forall|i: int| #[trigger] holds_at(before, k, i) implies self.pairs()
                == before.update(i, (k, value)) by {
                lemma_map_at(before, i);
            }
        }
    }

    /// Takes the value stored under `key` out of the map.
    pub fn remove(&mut self, key: &str) -> (r: Option<V>)
        ensures
            final(self)@ == old(self)@.remove(key@),
            old(self)@.contains_key(key@) ==> r == Some(old(self)@[key@]),
            !old(self)@.contains_key(key@) ==> r is None,
            forall|i: int|
                #[trigger] holds_at(old(self).pairs(), key@, i) ==> final(self).pairs() == old(
                    self,
                ).pairs().remove(i),
    {
        proof {
            use_type_invariant(&*self);
        }
        let ghost before = self.pairs();
        let mut entries: Vec<(String, V)> = Vec::new();
        std::mem::swap(&mut entries, &mut self.entries);
        let ghost old_entries = entries@;
        let r = match Self::find(&entries, key) {
            Some(i) => {
                let taken = entries.remove(i);
                let ghost after = Seq::new(entries@.len(), |j: int| (entries@[j].0@, entries@[j].1));
                proof {
                    assert(after =~= before.remove(i as int));
                    assert(before[i as int].0 == key@);
                    lemma_remove(before, i as int, key@);
                    lemma_map_at(before, i as int);
                }
                Some(taken.1)
            },
            None => {
                proof {
                    assert(forall|j: int| 0 <= j < before.len() ==> (#[trigger] before[j]).0 == old_entries[j].0@);
                    assert(map_of(before).remove(key@) =~= map_of(before));
                }
                None
            },
        };
        self.entries = entries;
        assert(self.pairs() =~= Seq::new(self.entries@.len(), |j: int| (self.entries@[j].0@, self.entries@[j].1)));
        r
    }

    /// Drops every entry.
    pub fn clear(&mut self)
        ensures
            final(self)@ == Map::<Seq<char>, V>::empty(),
    {
        self.entries = Vec::new();
        assert(self@ =~= Map::<Seq<char>, V>::empty());
    }

    /// How many entries there are. The entries' list and the map agree.
    pub fn len(&self) -> (r: usize)
        ensures
            r == self.pairs().len(),
            linked(self.pairs(), self@),
            self@.dom().finite(),
            self@.dom().len() == r,
    {
        proof {
            use_type_invariant(self);
            lemma_linked(self.pairs());
            lemma_count(self.pairs());
        }
        self.entries.len()
    }

    /// The key of entry `i`.
    pub fn key_at(&self, i: usize) -> (r: &str)
        requires
            i < self.pairs().len(),
        ensures
            r@ == self.pairs()[i as int].0,
    {
        self.entries[i].0.as_str()
    }

    /// The value of entry `i`.
    pub fn value_at(&self, i: usize) -> (r: &V)
        requires
            i < self.pairs().len(),
        ensures
            *r == self.pairs()[i as int].1,
    {
        &self.entries[i].1
    }
}

/// The list `s` and the map `m` hold the same entries, each once.
pub open spec fn linked<V>(s: Seq<(Seq<char>, V)>, m: Map<Seq<char>, V>) -> bool {
    &&& distinct_keys(s)
    &&& forall|i: int|
        0 <= i < s.len() ==> m.contains_key((#[trigger] s[i]).0) && m[s[i].0] == s[i].1
    &&& forall|k: Seq<char>| #[trigger] m.contains_key(k) ==> has_key(s, k)
}

proof fn lemma_linked<V>(s: Seq<(Seq<char>, V)>)
    requires
        distinct_keys(s),
    ensures
        linked(s, map_of(s)),
{
    assert forall|i: int| 0 <= i < s.len() implies map_of(s).contains_key((#[trigger] s[i]).0)
        && map_of(s)[s[i].0] == s[i].1 by {
        lemma_map_at(s, i);
    }
}

proof fn lemma_count<V>(s: Seq<(Seq<char>, V)>)
    requires
        distinct_keys(s),
    ensures
        map_of(s).dom().finite(),
        map_of(s).dom().len() == s.len(),
{
    let keys = Seq::new(s.len(), |i: int| s[i].0);
    assert(keys.no_duplicates());
    keys.unique_seq_to_set();
    assert(keys.to_set() =~= map_of(s).dom()) by {
        assert forall|k: Seq<char>| map_of(s).dom().contains(k) implies keys.to_set().contains(k) by {
            let i = choose|i: int| holds_at(s, k, i);
            assert(keys[i] == k);
        }
        assert forall|k: Seq<char>| keys.to_set().contains(k) implies map_of(s).dom().contains(k) by {
            let i = choose|i: int| 0 <= i < keys.len() && keys[i] == k;
            assert(holds_at(s, k, i));
        }
    }
}

proof fn lemma_update<V>(s: Seq<(Seq<char>, V)>, i: int, k: Seq<char>, v: V)
    requires
        distinct_keys(s),
        0 <= i < s.len(),
        s[i].0 == k,
    ensures
        distinct_keys(s.update(i, (k, v))),
        map_of(s.update(i, (k, v))) == map_of(s).insert(k, v),
{
    let t = s.update(i, (k, v));
    assert(distinct_keys(t));
    let want = map_of(s).insert(k, v);
    assert forall|x: Seq<char>| map_of(t).contains_key(x) == want.contains_key(x) by {
        if has_key(s, x) {
            let j = choose|j: int| holds_at(s, x, j);
            assert(holds_at(t, x, j));
        }
        if has_key(t, x) {
            let j = choose|j: int| holds_at(t, x, j);
            assert(holds_at(s, x, j));
        }
        assert(holds_at(t, k, i));
    }
    assert forall|x: Seq<char>| map_of(t).contains_key(x) implies map_of(t)[x] == want[x] by {
        let j = choose|j: int| holds_at(t, x, j);
        lemma_map_at(t, j);
        lemma_map_at(s, j);
    }
    assert(map_of(t) =~= want);
}

proof fn lemma_push<V>(s: Seq<(Seq<char>, V)>, k: Seq<char>, v: V)
    requires
        distinct_keys(s),
        forall|j: int| 0 <= j < s.len() ==> (#[trigger] s[j]).0 != k,
    ensures
        distinct_keys(s.push((k, v))),
        map_of(s.push((k, v))) == map_of(s).insert(k, v),
{
    let t = s.push((k, v));
    let want = map_of(s).insert(k, v);
    assert(distinct_keys(t));
    assert forall|x: Seq<char>| map_of(t).contains_key(x) == want.contains_key(x) by {
        if has_key(s, x) {
            let j = choose|j: int| holds_at(s, x, j);
            assert(holds_at(t, x, j));
        }
        if has_key(t, x) {
            let j = choose|j: int| holds_at(t, x, j);
            if j < s.len() {
                assert(holds_at(s, x, j));
            }
        }
        assert(holds_at(t, k, s.len() as int));
    }
    assert forall|x: Seq<char>| map_of(t).contains_key(x) implies map_of(t)[x] == want[x] by {
        let j = choose|j: int| holds_at(t, x, j);
        lemma_map_at(t, j);
        if j < s.len() {
            lemma_map_at(s, j);
        }
    }
    assert(map_of(t) =~= want);
}

proof fn lemma_remove<V>(s: Seq<(Seq<char>, V)>, i: int, k: Seq<char>)
    requires
        distinct_keys(s),
        0 <= i < s.len(),
        s[i].0 == k,
    ensures
        distinct_keys(s.remove(i)),
        map_of(s.remove(i)) == map_of(s).remove(k),
{
    let t = s.remove(i);
    let want = map_of(s).remove(k);
    assert(distinct_keys(t));
    assert forall|x: Seq<char>| map_of(t).contains_key(x) == want.contains_key(x) by {
        if has_key(s, x) && x != k {
            let j = choose|j: int| holds_at(s, x, j);
            if j < i {
                assert(holds_at(t, x, j));
            } else {
                assert(holds_at(t, x, j - 1));
            }
        }
        if has_key(t, x) {
            let j = choose|j: int| holds_at(t, x, j);
            if j < i {
                assert(holds_at(s, x, j));
            } else {
                assert(holds_at(s, x, j + 1));
            }
        }
    }
    assert forall|x: Seq<char>| map_of(t).contains_key(x) implies map_of(t)[x] == want[x] by {
        let j = choose|j: int| holds_at(t, x, j);
        lemma_map_at(t, j);
        if j < i {
            lemma_map_at(s, j);
        } else {
            lemma_map_at(s, j + 1);
        }
    }
    assert(map_of(t) =~= want);
}

/// A set of strings.
pub struct StringSet {
    members: StringMap<()>,
}

impl View for StringSet {
    type V = Set<Seq<char>>;

    closed spec fn view(&self) -> Set<Seq<char>> {
        self.members@.dom()
    }
}

impl StringSet {
    /// The empty set.
    pub fn new() -> (r: Self)
        ensures
            r@ == Set::<Seq<char>>::empty(),
    {
        let r = StringSet { members: StringMap::new() };
        assert(r@ =~= Set::<Seq<char>>::empty());
        r
    }

    pub fn contains(&self, key: &str) -> (r: bool)
        ensures
            r == self@.contains(key@),
    {
        self.members.contains_key(key)
    }

    /// Puts `key` into the set.
    pub fn insert(&mut self, key: &str)
        ensures
            final(self)@ == old(self)@.insert(key@),
    {
        self.members.insert(key.to_owned(), ());
        assert(self@ =~= old(self)@.insert(key@));
    }

    /// Takes `key` out of the set; says whether it was there.
    pub fn remove(&mut self, key: &str) -> (r: bool)
        ensures
            final(self)@ == old(self)@.remove(key@),
            r == old(self)@.contains(key@),
    {
        let taken = self.members.remove(key);
        assert(self@ =~= old(self)@.remove(key@));
        taken.is_some()
    }
}

} // verus!

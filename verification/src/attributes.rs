//! A small map keyed by strings, kept as a list of distinct keys in insertion
//! order. Record attributes are such a map from string keys to string values.

use vstd::prelude::*;
use vstd::string::*;

verus! {

broadcast use vstd::seq_lib::group_seq_properties;

/// The keys of a list of entries are pairwise distinct (by contents).
pub open spec fn distinct_keys<V>(s: Seq<(String, V)>) -> bool {
    forall|i: int, j: int|
        0 <= i < s.len() && 0 <= j < s.len() && i != j ==> #[trigger] s[i].0@ != #[trigger] s[j].0@
}

/// The map a list of entries stands for: later entries override earlier ones.
pub open spec fn entries_map<V>(s: Seq<(String, V)>) -> Map<Seq<char>, V>
    decreases s.len(),
{
    if s.len() == 0 {
        Map::empty()
    } else {
        entries_map(s.drop_last()).insert(s.last().0@, s.last().1)
    }
}

proof fn lemma_entries_lookup<V>(s: Seq<(String, V)>)
    requires
        distinct_keys(s),
    ensures
        forall|i: int|
            0 <= i < s.len() ==> #[trigger] entries_map(s).contains_key(s[i].0@) && entries_map(s)[s[i].0@]
                == s[i].1,
        forall|k: Seq<char>|
            #[trigger] entries_map(s).contains_key(k) ==> exists|i: int| 0 <= i < s.len() && s[i].0@ == k,
        entries_map(s).dom().finite(),
        entries_map(s).dom().len() == s.len(),
    decreases s.len(),
{
    if s.len() > 0 {
        let p = s.drop_last();
        assert(distinct_keys(p)) by {
            assert forall|i: int, j: int|
                0 <= i < p.len() && 0 <= j < p.len() && i != j implies #[trigger] p[i].0@ != #[trigger] p[j].0@ by {
                assert(p[i] == s[i] && p[j] == s[j]);
            }
        }
        lemma_entries_lookup(p);
        let e = s.last();
        assert(!entries_map(p).contains_key(e.0@)) by {
            if entries_map(p).contains_key(e.0@) {
                let i = choose|i: int| 0 <= i < p.len() && p[i].0@ == e.0@;
                assert(s[i].0@ == s[s.len() - 1].0@);
            }
        }
        assert forall|i: int| 0 <= i < s.len() implies #[trigger] entries_map(s).contains_key(s[i].0@)
            && entries_map(s)[s[i].0@] == s[i].1 by {
            if i < s.len() - 1 {
                assert(s[i] == p[i]);
                assert(s[i].0@ != s[s.len() - 1].0@);
            }
        }
        assert forall|k: Seq<char>| #[trigger] entries_map(s).contains_key(k) implies exists|i: int|
            0 <= i < s.len() && s[i].0@ == k by {
            if k != e.0@ {
                let i = choose|i: int| 0 <= i < p.len() && p[i].0@ == k;
                assert(s[i] == p[i]);
            } else {
                assert(s[s.len() - 1].0@ == k);
            }
        }
    }
}

proof fn lemma_entries_update<V>(s: Seq<(String, V)>, i: int, k: String, v: V)
    requires
        distinct_keys(s),
        0 <= i < s.len(),
        k@ == s[i].0@,
    ensures
        distinct_keys(s.update(i, (k, v))),
        entries_map(s.update(i, (k, v))) == entries_map(s).insert(k@, v),
{
    let t = s.update(i, (k, v));
    assert(distinct_keys(t)) by {
        assert forall|a: int, b: int|
            0 <= a < t.len() && 0 <= b < t.len() && a != b implies #[trigger] t[a].0@ != #[trigger] t[b].0@ by {
            assert(t[a].0@ == s[a].0@ && t[b].0@ == s[b].0@);
        }
    }
    lemma_entries_lookup(s);
    lemma_entries_lookup(t);
    let m1 = entries_map(t);
    let m2 = entries_map(s).insert(k@, v);
    assert forall|key: Seq<char>| #[trigger] m1.contains_key(key) <==> m2.contains_key(key) by {
        if m1.contains_key(key) {
            let j = choose|j: int| 0 <= j < t.len() && t[j].0@ == key;
            assert(s[j].0@ == key);
        }
        if m2.contains_key(key) && key != k@ {
            let j = choose|j: int| 0 <= j < s.len() && s[j].0@ == key;
            assert(t[j].0@ == key);
        }
        if key == k@ {
            assert(t[i].0@ == key);
        }
    }
    assert forall|key: Seq<char>| #[trigger] m1.contains_key(key) implies m1[key] == m2[key] by {
        let j = choose|j: int| 0 <= j < t.len() && t[j].0@ == key;
        if j != i {
            assert(t[j] == s[j]);
            assert(key != k@);
        }
    }
    assert(m1 =~= m2);
}

/// A map from strings to values, keeping keys in insertion order.
#[derive(Debug)]
pub struct StringMap<V> {
    entries: Vec<(String, V)>,
}

/// Record attributes: user-defined string key/value properties.
pub type Attributes = StringMap<String>;

impl<V> StringMap<V> {
    #[verifier::type_invariant]
    spec fn keys_distinct(self) -> bool {
        distinct_keys(self.entries@)
    }

    /// The map this value stands for.
    pub closed spec fn view(&self) -> Map<Seq<char>, V> {
        entries_map(self.entries@)
    }

    /// The entries, in insertion order.
    pub closed spec fn spec_entries(&self) -> Seq<(String, V)> {
        self.entries@
    }

    /// Create an empty map.
    pub fn new() -> (m: Self)
        ensures
            m.view() == Map::<Seq<char>, V>::empty(),
            m.spec_entries().len() == 0,
    {
        StringMap { entries: Vec::new() }
    }

    /// The entries, in insertion order.
    pub fn entries(&self) -> (s: &[(String, V)])
        ensures
            s@ == self.spec_entries(),
    {
        self.entries.as_slice()
    }

    /// Number of keys.
    pub fn len(&self) -> (n: usize)
        ensures
            n == self.view().dom().len(),
            self.view().dom().finite(),
    {
        proof {
            use_type_invariant(self);
            lemma_entries_lookup(self.entries@);
        }
        self.entries.len()
    }

    /// Whether the map has no keys.
    pub fn is_empty(&self) -> (b: bool)
        ensures
            b == (self.view().dom().len() == 0),
    {
        proof {
            use_type_invariant(self);
            lemma_entries_lookup(self.entries@);
        }
        self.entries.len() == 0
    }

    /// The value under a key, if any.
    pub fn get(&self, key: &str) -> (r: Option<&V>)
        ensures
            (r is Some) == self.view().contains_key(key@),
            r matches Some(v) ==> *v == self.view()[key@],
    {
        proof {
            use_type_invariant(self);
            lemma_entries_lookup(self.entries@);
        }
        match position_in(&self.entries, key) {
            Some(i) => {
                proof {
                    assert(entries_map(self.entries@).contains_key(self.entries@[i as int].0@));
                }
                Some(&self.entries[i].1)
            },
            None => None,
        }
    }

    /// Whether the key is present.
    pub fn contains_key(&self, key: &str) -> (b: bool)
        ensures
            b == self.view().contains_key(key@),
    {
        proof {
            use_type_invariant(self);
            lemma_entries_lookup(self.entries@);
        }
        position_in(&self.entries, key).is_some()
    }

    /// Insert a value under a key, returning the value it replaces, if any.
    pub fn insert(&mut self, key: String, value: V) -> (old_value: Option<V>)
        ensures
            final(self).view() == old(self).view().insert(key@, value),
            (old_value is Some) == old(self).view().contains_key(key@),
            old_value matches Some(v) ==> v == old(self).view()[key@],
    {
        proof {
            use_type_invariant(&*self);
            lemma_entries_lookup(self.entries@);
        }
        let mut entries: Vec<(String, V)> = Vec::new();
        core::mem::swap(&mut entries, &mut self.entries);
        let ghost before = entries@;
        match position_in(&entries, key.as_str()) {
            Some(i) => {
                let mut slot = (key, value);
                let ghost new_entry = slot;
                core::mem::swap(&mut slot, &mut entries[i]);
                proof {
                    assert(entries_map(before).contains_key(before[i as int].0@));
                    assert(slot == before[i as int]);
                    lemma_entries_update(before, i as int, new_entry.0, new_entry.1);
                    assert(entries@ == before.update(i as int, new_entry));
                }
                self.entries = entries;
                Some(slot.1)
            },
            None => {
                let ghost e = (key, value);
                entries.push((key, value));
                proof {
                    assert(entries@.drop_last() == before);
                    assert forall|a: int, b: int|
                        0 <= a < entries@.len() && 0 <= b < entries@.len() && a != b implies #[trigger] entries@[a].0@
                        != #[trigger] entries@[b].0@ by {
                        if a < before.len() && b < before.len() {
                            assert(entries@[a] == before[a] && entries@[b] == before[b]);
                        } else if a < before.len() {
                            assert(entries@[a] == before[a]);
                        } else if b < before.len() {
                            assert(entries@[b] == before[b]);
                        }
                    }
                }
                self.entries = entries;
                None
            },
        }
    }

    /// Insert every entry of `other` (its values win over existing ones).
    pub fn extend(&mut self, other: StringMap<V>)
        ensures
            final(self).view() == old(self).view().union_prefer_right(other.view()),
    {
        proof {
            use_type_invariant(&other);
            lemma_entries_lookup(other.entries@);
        }
        let ghost start = self.view();
        let ghost all = other.entries@;
        let StringMap { entries } = other;
        let mut rest = entries;
        while rest.len() > 0
            invariant
                distinct_keys(all),
                rest@.len() <= all.len(),
                rest@ == all.subrange(0, rest@.len() as int),
                forall|k: Seq<char>|
                    #[trigger] self.view().contains_key(k) <==> (start.contains_key(k) || exists|j: int|
                        rest@.len() <= j < all.len() && all[j].0@ == k),
                forall|j: int|
                    rest@.len() <= j < all.len() ==> #[trigger] self.view()[all[j].0@] == all[j].1,
                forall|k: Seq<char>|
                    #[trigger] self.view().contains_key(k) && (forall|j: int|
                        rest@.len() <= j < all.len() ==> all[j].0@ != k) ==> self.view()[k] == start[k],
            decreases rest@.len(),
        {
            let ghost n = rest@.len();
            let ghost before = self.view();
            let ghost rest_before = rest@;
            let (k, v) = rest.pop().unwrap();
            assert(rest_before[n - 1] == all[n - 1]);
            assert(all[n - 1] == (k, v));
            assert(rest@ =~= all.subrange(0, rest@.len() as int));
            self.insert(k, v);
            assert forall|kk: Seq<char>|
                #[trigger] self.view().contains_key(kk) <==> (start.contains_key(kk) || exists|j: int|
                    rest@.len() <= j < all.len() && all[j].0@ == kk) by {
                if kk == k@ {
                    assert(all[n - 1].0@ == kk);
                }
                if exists|j: int| rest@.len() <= j < all.len() && all[j].0@ == kk {
                    let j = choose|j: int| rest@.len() <= j < all.len() && all[j].0@ == kk;
                    if j != n - 1 {
                        assert(before.contains_key(kk));
                    }
                }
            }
            assert forall|j: int| rest@.len() <= j < all.len() implies #[trigger] self.view()[all[j].0@]
                == all[j].1 by {
                if j != n - 1 {
                    assert(all[j].0@ != all[n - 1].0@);
                }
            }
        }
        proof {
            let u = start.union_prefer_right(entries_map(all));
            assert forall|k: Seq<char>| #[trigger] self.view().contains_key(k) <==> u.contains_key(k) by {
                if exists|j: int| 0 <= j < all.len() && all[j].0@ == k {
                    let j = choose|j: int| 0 <= j < all.len() && all[j].0@ == k;
                    assert(entries_map(all).contains_key(all[j].0@));
                }
            }
            assert forall|k: Seq<char>| #[trigger] self.view().contains_key(k) implies self.view()[k] == u[k] by {
                if entries_map(all).contains_key(k) {
                    let j = choose|j: int| 0 <= j < all.len() && all[j].0@ == k;
                    assert(self.view()[all[j].0@] == all[j].1);
                } else {
                    assert forall|j: int| 0 <= j < all.len() implies all[j].0@ != k by {
                        assert(entries_map(all).contains_key(all[j].0@));
                    }
                }
            }
            assert(self.view() =~= u);
        }
    }
}

impl Clone for StringMap<String> {
    fn clone(&self) -> (r: Self)
        ensures
            r.view() == self.view(),
    {
        proof {
            use_type_invariant(self);
        }
        let mut entries: Vec<(String, String)> = Vec::new();
        let mut i: usize = 0;
        while i < self.entries.len()
            invariant
                i <= self.entries@.len(),
                entries@ == self.entries@.subrange(0, i as int),
                distinct_keys(self.entries@),
            decreases self.entries@.len() - i,
        {
            let k = self.entries[i].0.clone();
            let v = self.entries[i].1.clone();
            entries.push((k, v));
            assert(entries@ =~= self.entries@.subrange(0, i + 1));
            i = i + 1;
        }
        assert(entries@ =~= self.entries@);
        StringMap { entries }
    }
}

/// Position of the entry with this key in a list, if any.
fn position_in<V>(entries: &Vec<(String, V)>, key: &str) -> (r: Option<usize>)
    ensures
        match r {
            Some(i) => i < entries@.len() && entries@[i as int].0@ == key@,
            None => forall|i: int| 0 <= i < entries@.len() ==> entries@[i].0@ != key@,
        },
{
    let wanted = <String as StringExecFns>::from_str(key);
    let mut i: usize = 0;
    while i < entries.len()
        invariant
            i <= entries@.len(),
            wanted@ == key@,
            forall|j: int| 0 <= j < i ==> entries@[j].0@ != key@,
        decreases entries@.len() - i,
    {
        if entries[i].0.eq(&wanted) {
            return Some(i);
        }
        i = i + 1;
    }
    None
}

} // verus!

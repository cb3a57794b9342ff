//! A map from texts to values, kept as a list of entries with distinct keys.

use vstd::prelude::*;

use crate::text::{owned, same};

verus! {

/// A map whose keys are texts.
pub struct TextMap<V> {
    entries: Vec<(String, V)>,
}

/// The entries as a map.
pub closed spec fn table<V>(s: Seq<(String, V)>) -> Map<Seq<char>, V>
    decreases s.len(),
{
    if s.len() == 0 {
        Map::empty()
    } else {
        table(s.drop_last()).insert(s.last().0@, s.last().1)
    }
}

/// No two entries have the same key.
pub closed spec fn distinct<V>(s: Seq<(String, V)>) -> bool {
    forall|i: int, j: int|
        0 <= i < j < s.len() ==> (#[trigger] s[i]).0@ != (#[trigger] s[j]).0@
}

proof fn lemma_table<V>(s: Seq<(String, V)>)
    requires
        distinct(s),
    ensures
        table(s).dom().finite(),
        table(s).dom().len() == s.len(),
        forall|i: int|
            #![trigger s[i]]
            0 <= i < s.len() ==> table(s).dom().contains(s[i].0@) && table(s)[s[i].0@] == s[i].1,
        forall|k: Seq<char>| #[trigger]
            table(s).dom().contains(k) ==> exists|i: int|
                0 <= i < s.len() && #[trigger] s[i].0@ == k,
    decreases s.len(),
{
    if s.len() > 0 {
        let t = s.drop_last();
        assert(distinct(t)) by {
            assert forall|i: int, j: int| 0 <= i < j < t.len() implies (#[trigger] t[i]).0@ != (
            #[trigger] t[j]).0@ by {
                assert(s[i].0@ != s[j].0@);
            }
        }
        lemma_table(t);
        assert(!table(t).dom().contains(s.last().0@)) by {
            if table(t).dom().contains(s.last().0@) {
                let i = choose|i: int| 0 <= i < t.len() && #[trigger] t[i].0@ == s.last().0@;
                assert(s[i].0@ != s[s.len() - 1].0@);
            }
        }
        assert forall|i: int| #![trigger s[i]] 0 <= i < s.len() implies table(s).dom().contains(
            s[i].0@,
        ) && table(s)[s[i].0@] == s[i].1 by {
            if i < t.len() {
                assert(t[i] == s[i]);
                assert(s[i].0@ != s[s.len() - 1].0@);
            }
        }
        assert forall|k: Seq<char>| #[trigger] table(s).dom().contains(k) implies exists|i: int|
            0 <= i < s.len() && #[trigger] s[i].0@ == k by {
            if table(t).dom().contains(k) {
                let i = choose|i: int| 0 <= i < t.len() && #[trigger] t[i].0@ == k;
                assert(s[i].0@ == k);
            } else {
                assert(s[s.len() - 1].0@ == k);
            }
        }
    }
}

impl<V> View for TextMap<V> {
    type V = Map<Seq<char>, V>;

    closed spec fn view(&self) -> Map<Seq<char>, V> {
        table(self.entries@)
    }
}

impl<V> TextMap<V> {
    #[verifier::type_invariant]
    closed spec fn inv(self) -> bool {
        distinct(self.entries@)
    }

    /// The key of the entry at position `i`.
    pub closed spec fn key_at(&self, i: int) -> Seq<char> {
        self.entries@[i].0@
    }

    /// How many entries there are.
    pub closed spec fn size(&self) -> nat {
        self.entries@.len()
    }

    /// The keys, in the order in which they came in.
    pub closed spec fn keys(&self) -> Seq<Seq<char>> {
        self.entries@.map_values(|e: (String, V)| e.0@)
    }

    /// The keys in order, without repetition, are the domain of the map.
    pub open spec fn enumerates(&self) -> bool {
        &&& self@.dom().finite()
        &&& self@.dom().len() == self.size()
        &&& self.keys().len() == self.size()
        &&& forall|i: int| 0 <= i < self.size() ==> self.keys()[i] == #[trigger] self.key_at(i)
        &&& forall|i: int|
            0 <= i < self.size() ==> self@.dom().contains(#[trigger] self.key_at(i))
        &&& forall|i: int, j: int|
            0 <= i < j < self.size() ==> #[trigger] self.key_at(i) != #[trigger] self.key_at(j)
        &&& forall|k: Seq<char>| #[trigger]
            self@.dom().contains(k) ==> exists|i: int|
                0 <= i < self.size() && #[trigger] self.key_at(i) == k
    }

    /// The map without entries.
    pub fn new() -> (r: TextMap<V>)
        ensures
            r@ == Map::<Seq<char>, V>::empty(),
            r.keys() == Seq::<Seq<char>>::empty(),
    {
        let r = TextMap { entries: Vec::new() };
        assert(table(r.entries@) =~= Map::empty());
        assert(r.keys() =~= Seq::empty());
        r
    }

    /// The number of entries.
    pub fn len(&self) -> (r: usize)
        ensures
            r == self@.dom().len(),
            r == self.size(),
            self.enumerates(),
    {
        proof {
            use_type_invariant(self);
            lemma_table(self.entries@);
            assert forall|k: Seq<char>| #[trigger] self@.dom().contains(k) implies exists|i: int|
                0 <= i < self.size() && #[trigger] self.key_at(i) == k by {
                let i = choose|i: int|
                    0 <= i < self.entries@.len() && #[trigger] self.entries@[i].0@ == k;
                assert(self.key_at(i) == k);
            }
            assert forall|i: int| 0 <= i < self.size() implies self@.dom().contains(
                #[trigger] self.key_at(i),
            ) by {
                assert(self.entries@[i].0@ == self.key_at(i));
            }
        }
        self.entries.len()
    }

    /// The entry at position `i`.
    pub fn entry(&self, i: usize) -> (r: (&String, &V))
        requires
            i < self.size(),
        ensures
            r.0@ == self.key_at(i as int),
            self@.dom().contains(r.0@),
            *r.1 == self@[r.0@],
    {
        proof {
            use_type_invariant(self);
            lemma_table(self.entries@);
        }
        let e = &self.entries[i];
        (&e.0, &e.1)
    }

    fn position(&self, key: &str) -> (r: Option<usize>)
        ensures
            match r {
                Some(i) => i < self.entries@.len() && self.entries@[i as int].0@ == key@
                    && self@.dom().contains(key@) && self@[key@] == self.entries@[i as int].1,
                None => !self@.dom().contains(key@) && forall|j: int|
                    0 <= j < self.entries@.len() ==> (#[trigger] self.entries@[j]).0@ != key@,
            },
    {
        proof {
            use_type_invariant(self);
            lemma_table(self.entries@);
        }
        let mut i: usize = 0;
        while i < self.entries.len()
            invariant
                i <= self.entries@.len(),
                forall|j: int| 0 <= j < i ==> (#[trigger] self.entries@[j]).0@ != key@,
                forall|i: int|
                    #![trigger self.entries@[i]]
                    0 <= i < self.entries@.len() ==> table(self.entries@).dom().contains(
                        self.entries@[i].0@,
                    ) && table(self.entries@)[self.entries@[i].0@] == self.entries@[i].1,
            decreases self.entries@.len() - i,
        {
            if same(self.entries[i].0.as_str(), key) {
                return Some(i);
            }
            i += 1;
        }
        None
    }

    /// Whether `key` has an entry.
    pub fn contains_key(&self, key: &str) -> (r: bool)
        ensures
            r == self@.dom().contains(key@),
    {
        self.position(key).is_some()
    }

    /// The value of `key`.
    pub fn get(&self, key: &str) -> (r: Option<&V>)
        ensures
            match r {
                Some(v) => self@.dom().contains(key@) && *v == self@[key@],
                None => !self@.dom().contains(key@),
            },
    {
        match self.position(key) {
            Some(i) => Some(&self.entries[i].1),
            None => None,
        }
    }

    /// Sets `key` to `value`, whether it had an entry or not. A new key comes last.
    pub fn insert(&mut self, key: &str, value: V)
        ensures
            final(self)@ == old(self)@.insert(key@, value),
            final(self).keys() == (if old(self)@.dom().contains(key@) {
                old(self).keys()
            } else {
                old(self).keys().push(key@)
            }),
    {
        let found = self.position(key);
        proof {
            use_type_invariant(&*self);
        }
        let mut entries: Vec<(String, V)> = Vec::new();
        std::mem::swap(&mut entries, &mut self.entries);
        let ghost before = entries@;
        let e = (owned(key), value);
        match found {
            Some(i) => {
                proof {
                    lemma_table(before);
                    lemma_table_update(before, i as int, e);
                }
                entries.set(i, e);
            },
            None => {
                proof {
                    lemma_table_push(before, e);
                }
                entries.push(e);
            },
        }
        self.entries = entries;
        assert(self.keys() =~= (if old(self)@.dom().contains(key@) {
            old(self).keys()
        } else {
            old(self).keys().push(key@)
        }));
    }

    /// Removes the entry of `key`, if it has one, and hands its value out.
    pub fn remove(&mut self, key: &str) -> (r: Option<V>)
        ensures
            final(self)@ == old(self)@.remove(key@),
            match r {
                Some(v) => old(self)@.dom().contains(key@) && v == old(self)@[key@],
                None => !old(self)@.dom().contains(key@),
            },
    {
        let found = self.position(key);
        proof {
            use_type_invariant(&*self);
        }
        match found {
            Some(i) => {
                let mut entries: Vec<(String, V)> = Vec::new();
                std::mem::swap(&mut entries, &mut self.entries);
                proof {
                    lemma_table_remove(entries@, i as int);
                }
                let e = entries.remove(i);
                self.entries = entries;
                Some(e.1)
            },
            None => {
                assert(self@.remove(key@) =~= self@);
                None
            },
        }
    }
}

proof fn lemma_table_push<V>(s: Seq<(String, V)>, e: (String, V))
    requires
        distinct(s),
        forall|j: int| 0 <= j < s.len() ==> (#[trigger] s[j]).0@ != e.0@,
    ensures
        distinct(s.push(e)),
        table(s.push(e)) == table(s).insert(e.0@, e.1),
{
    assert(s.push(e).drop_last() == s);
    assert forall|i: int, j: int| 0 <= i < j < s.push(e).len() implies (#[trigger] s.push(e)[i]).0@
        != (#[trigger] s.push(e)[j]).0@ by {
        if j < s.len() {
            assert(s[i].0@ != s[j].0@);
        } else {
            assert(s[i].0@ != e.0@);
        }
    }
}

proof fn lemma_table_update<V>(s: Seq<(String, V)>, i: int, e: (String, V))
    requires
        distinct(s),
        0 <= i < s.len(),
        s[i].0@ == e.0@,
    ensures
        distinct(s.update(i, e)),
        table(s.update(i, e)) == table(s).insert(e.0@, e.1),
    decreases s.len(),
{
    let u = s.update(i, e);
    assert forall|a: int, b: int| 0 <= a < b < u.len() implies (#[trigger] u[a]).0@ != (
    #[trigger] u[b]).0@ by {
        assert(s[a].0@ != s[b].0@);
    }
    if i == s.len() - 1 {
        assert(u.drop_last() == s.drop_last());
        assert(table(u) =~= table(s).insert(e.0@, e.1));
    } else {
        assert(u.drop_last() == s.drop_last().update(i, e));
        assert(distinct(s.drop_last())) by {
            assert forall|a: int, b: int| 0 <= a < b < s.drop_last().len() implies (
            #[trigger] s.drop_last()[a]).0@ != (#[trigger] s.drop_last()[b]).0@ by {
                assert(s[a].0@ != s[b].0@);
            }
        }
        lemma_table_update(s.drop_last(), i, e);
        assert(s[i].0@ != s[s.len() - 1].0@);
        assert(table(u) =~= table(s).insert(e.0@, e.1));
    }
}

proof fn lemma_table_remove<V>(s: Seq<(String, V)>, i: int)
    requires
        distinct(s),
        0 <= i < s.len(),
    ensures
        distinct(s.remove(i)),
        table(s.remove(i)) == table(s).remove(s[i].0@),
    decreases s.len(),
{
    let u = s.remove(i);
    assert forall|a: int, b: int| 0 <= a < b < u.len() implies (#[trigger] u[a]).0@ != (
    #[trigger] u[b]).0@ by {
        let a2 = if a < i { a } else { a + 1 };
        let b2 = if b < i { b } else { b + 1 };
        assert(s[a2].0@ != s[b2].0@);
    }
    lemma_table(s);
    lemma_table(u);
    assert(table(u) =~= table(s).remove(s[i].0@)) by {
        assert forall|k: Seq<char>| table(u).dom().contains(k) <==> #[trigger] table(s).remove(
            s[i].0@,
        ).dom().contains(k) by {
            if table(u).dom().contains(k) {
                let a = choose|a: int| 0 <= a < u.len() && #[trigger] u[a].0@ == k;
                let a2 = if a < i { a } else { a + 1 };
                assert(s[a2] == u[a]);
                if a2 < i {
                    assert(s[a2].0@ != s[i].0@);
                } else {
                    assert(s[i].0@ != s[a2].0@);
                }
            }
            if table(s).dom().contains(k) && k != s[i].0@ {
                let a = choose|a: int| 0 <= a < s.len() && #[trigger] s[a].0@ == k;
                let a2 = if a < i { a } else { a - 1 };
                assert(u[a2] == s[a]);
            }
        }
        assert forall|k: Seq<char>| #[trigger] table(u).dom().contains(k) implies table(u)[k]
            == table(s).remove(s[i].0@)[k] by {
            let a = choose|a: int| 0 <= a < u.len() && #[trigger] u[a].0@ == k;
            let a2 = if a < i { a } else { a + 1 };
            assert(s[a2] == u[a]);
            if a2 < i {
                assert(s[a2].0@ != s[i].0@);
            } else {
                assert(s[i].0@ != s[a2].0@);
            }
        }
    }
}

} // verus!

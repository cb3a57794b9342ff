//! A set of texts, kept in ascending order.

use vstd::prelude::*;

use crate::text::{before, is_before, lemma_before_total, lemma_before_trans, owned, same, texts};

verus! {

/// Every text comes strictly before the ones that follow it.
pub open spec fn ascending(s: Seq<Seq<char>>) -> bool {
    forall|i: int, j: int| 0 <= i < j < s.len() ==> before(#[trigger] s[i], #[trigger] s[j])
}

/// Where `x` belongs among the first `n` texts of an ascending list.
pub open spec fn rank(s: Seq<Seq<char>>, x: Seq<char>) -> nat
    decreases s.len(),
{
    if s.len() == 0 || before(s.last(), x) {
        s.len()
    } else {
        rank(s.drop_last(), x)
    }
}

/// An ascending list with `x` in its place, which it takes only once.
pub open spec fn placed(s: Seq<Seq<char>>, x: Seq<char>) -> Seq<Seq<char>> {
    if s.contains(x) {
        s
    } else {
        s.insert(rank(s, x) as int, x)
    }
}

/// The texts of a list, in ascending order and without repetition.
pub open spec fn sorted_set(s: Seq<Seq<char>>) -> Seq<Seq<char>>
    decreases s.len(),
{
    if s.len() == 0 {
        seq![]
    } else {
        placed(sorted_set(s.drop_last()), s.last())
    }
}

proof fn lemma_rank(s: Seq<Seq<char>>, x: Seq<char>)
    requires
        ascending(s),
    ensures
        rank(s, x) <= s.len(),
        forall|i: int| 0 <= i < rank(s, x) ==> before(#[trigger] s[i], x),
        forall|i: int| rank(s, x) <= i < s.len() ==> !before(#[trigger] s[i], x),
    decreases s.len(),
{
    if s.len() > 0 {
        if before(s.last(), x) {
            assert forall|i: int| 0 <= i < s.len() implies before(#[trigger] s[i], x) by {
                if i < s.len() - 1 {
                    lemma_before_trans(s[i], s.last(), x);
                }
            }
        } else {
            let t = s.drop_last();
            assert(ascending(t)) by {
                assert forall|i: int, j: int| 0 <= i < j < t.len() implies before(
                    #[trigger] t[i],
                    #[trigger] t[j],
                ) by {
                    assert(before(s[i], s[j]));
                }
            }
            lemma_rank(t, x);
            assert forall|i: int| rank(s, x) <= i < s.len() implies !before(
                #[trigger] s[i],
                x,
            ) by {
                if i < t.len() {
                    assert(t[i] == s[i]);
                }
            }
            assert forall|i: int| 0 <= i < rank(s, x) implies before(#[trigger] s[i], x) by {
                assert(t[i] == s[i]);
            }
        }
    }
}

/// Placing a text keeps the order and adds that text only.
pub proof fn lemma_placed(s: Seq<Seq<char>>, x: Seq<char>)
    requires
        ascending(s),
    ensures
        ascending(placed(s, x)),
        forall|y: Seq<char>| #[trigger] placed(s, x).contains(y) <==> s.contains(y) || y == x,
{
    if !s.contains(x) {
        lemma_rank(s, x);
        let r = rank(s, x) as int;
        let t = s.insert(r, x);
        assert forall|i: int, j: int| 0 <= i < j < t.len() implies before(
            #[trigger] t[i],
            #[trigger] t[j],
        ) by {
            let a = if i < r { i } else { i - 1 };
            let b = if j < r { j } else { j - 1 };
            if i == r {
                assert(t[j] == s[b]);
                lemma_before_total(x, s[b]);
            } else if j == r {
                assert(t[i] == s[a]);
            } else {
                assert(t[i] == s[a]);
                assert(t[j] == s[b]);
            }
        }
        assert forall|y: Seq<char>| #[trigger] t.contains(y) <==> s.contains(y) || y == x by {
            if s.contains(y) {
                let k = choose|k: int| 0 <= k < s.len() && s[k] == y;
                let m = if k < r { k } else { k + 1 };
                assert(t[m] == y);
            }
            if y == x {
                assert(t[r] == x);
            }
            if t.contains(y) && y != x {
                let k = choose|k: int| 0 <= k < t.len() && t[k] == y;
                let m = if k < r { k } else { k - 1 };
                assert(s[m] == y);
            }
        }
    }
}

/// The sorted set of a list is in ascending order and has the texts of the list.
pub proof fn lemma_sorted_set(s: Seq<Seq<char>>)
    ensures
        ascending(sorted_set(s)),
        forall|y: Seq<char>| #[trigger] sorted_set(s).contains(y) <==> s.contains(y),
    decreases s.len(),
{
    if s.len() > 0 {
        let t = s.drop_last();
        lemma_sorted_set(t);
        lemma_placed(sorted_set(t), s.last());
        assert forall|y: Seq<char>| #[trigger] sorted_set(s).contains(y) <==> s.contains(y) by {
            if s.contains(y) {
                let k = choose|k: int| 0 <= k < s.len() && s[k] == y;
                if k < t.len() {
                    assert(t[k] == y);
                }
            }
            if t.contains(y) {
                let k = choose|k: int| 0 <= k < t.len() && t[k] == y;
                assert(s[k] == y);
            }
            assert(s[s.len() - 1] == s.last());
        }
    }
}

/// A set of texts.
pub struct TextSet {
    items: Vec<String>,
}

impl View for TextSet {
    type V = Seq<Seq<char>>;

    /// The texts in ascending order.
    closed spec fn view(&self) -> Seq<Seq<char>> {
        texts(self.items@)
    }
}

impl TextSet {
    #[verifier::type_invariant]
    closed spec fn inv(self) -> bool {
        ascending(texts(self.items@))
    }

    /// The texts as a set.
    pub open spec fn set(&self) -> Set<Seq<char>> {
        Set::new(|x: Seq<char>| self@.contains(x))
    }

    /// The set without texts.
    pub fn new() -> (r: TextSet)
        ensures
            r@ == Seq::<Seq<char>>::empty(),
    {
        let r = TextSet { items: Vec::new() };
        assert(r@ =~= Seq::empty());
        r
    }

    /// How many texts there are.
    pub fn len(&self) -> (r: usize)
        ensures
            r == self@.len(),
            ascending(self@),
    {
        proof {
            use_type_invariant(self);
        }
        self.items.len()
    }

    /// The text at position `i` in ascending order.
    pub fn at(&self, i: usize) -> (r: &str)
        requires
            i < self@.len(),
        ensures
            r@ == self@[i as int],
    {
        self.items[i].as_str()
    }

    /// Whether there is no text.
    pub fn is_empty(&self) -> (r: bool)
        ensures
            r == (self@.len() == 0),
            r == (forall|x: Seq<char>| !(#[trigger] self.set().contains(x))),
    {
        let r = self.items.len() == 0;
        proof {
            if !r {
                assert(self@.contains(self@[0]));
                assert(self.set().contains(self@[0]));
            }
        }
        r
    }

    /// Whether `x` is in the set.
    pub fn contains(&self, x: &str) -> (r: bool)
        ensures
            r == self@.contains(x@),
    {
        let n: usize = self.items.len();
        let mut i: usize = 0;
        while i < n
            invariant
                i <= n,
                n == self.items@.len(),
                n == self@.len(),
                self@ == texts(self.items@),
                forall|j: int| 0 <= j < i ==> #[trigger] self@[j] != x@,
            decreases n - i,
        {
            if same(self.items[i].as_str(), x) {
                assert(self@[i as int] == x@);
                return true;
            }
            i += 1;
        }
        false
    }

    /// Puts `x` into the set.
    pub fn insert(&mut self, x: &str)
        ensures
            final(self)@ == placed(old(self)@, x@),
            final(self).set() == old(self).set().insert(x@),
            ascending(final(self)@),
    {
        proof {
            use_type_invariant(&*self);
            lemma_placed(self@, x@);
        }
        let found = self.contains(x);
        if !found {
            let mut items: Vec<String> = Vec::new();
            std::mem::swap(&mut items, &mut self.items);
            let ghost old_items = items@;
            let mut i: usize = items.len();
            proof {
                lemma_rank(texts(old_items), x@);
                assert(texts(old_items).take(i as int) =~= texts(old_items));
            }
            while i > 0 && !is_before(items[i - 1].as_str(), x)
                invariant
                    i <= items@.len(),
                    items@ == old_items,
                    rank(texts(old_items), x@) == rank(texts(old_items).take(i as int), x@),
                decreases i,
            {
                let ghost t = texts(old_items).take(i as int);
                assert(t.last() == old_items[i - 1]@);
                assert(t.drop_last() =~= texts(old_items).take(i - 1));
                i -= 1;
            }
            proof {
                let t = texts(old_items).take(i as int);
                if i > 0 {
                    assert(t.last() == old_items[i - 1]@);
                }
                assert(rank(t, x@) == i);
            }
            items.insert(i, owned(x));
            assert(texts(items@) =~= texts(old_items).insert(i as int, x@));
            self.items = items;
        }
        assert(self.set() =~= old(self).set().insert(x@));
    }

    /// The texts that are not in `other`.
    pub fn without(&self, other: &TextSet) -> (r: TextSet)
        ensures
            r.set() == self.set().difference(other.set()),
    {
        let n: usize = self.items.len();
        let mut out = TextSet::new();
        assert(out.set() =~= Set::empty());
        let mut i: usize = 0;
        while i < n
            invariant
                i <= n,
                n == self.items@.len(),
                self@ == texts(self.items@),
                forall|x: Seq<char>| #[trigger]
                    out.set().contains(x) <==> self@.take(i as int).contains(x)
                        && !other.set().contains(x),
            decreases n - i,
        {
            let ghost t = self@.take(i as int);
            let ghost u = self@.take(i + 1);
            proof {
                assert(u =~= t.push(self@[i as int]));
                assert forall|x: Seq<char>| #[trigger] u.contains(x) <==> t.contains(x) || x
                    == self@[i as int] by {
                    if t.contains(x) {
                        let k = choose|k: int| 0 <= k < t.len() && t[k] == x;
                        assert(u[k] == x);
                    }
                    assert(u[i as int] == self@[i as int]);
                    if u.contains(x) {
                        let k = choose|k: int| 0 <= k < u.len() && u[k] == x;
                        if k < i {
                            assert(t[k] == x);
                        }
                    }
                }
            }
            let x = self.items[i].as_str();
            if !other.contains(x) {
                out.insert(x);
            }
            i += 1;
        }
        assert(self@.take(n as int) =~= self@);
        assert(out.set() =~= self.set().difference(other.set()));
        out
    }
}

/// The sorted set of a list.
pub fn set_of(v: &Vec<String>) -> (r: TextSet)
    ensures
        r@ == sorted_set(texts(v@)),
{
    let mut out = TextSet::new();
    let mut i: usize = 0;
    while i < v.len()
        invariant
            i <= v@.len(),
            out@ == sorted_set(texts(v@).take(i as int)),
        decreases v@.len() - i,
    {
        assert(texts(v@).take(i + 1).drop_last() =~= texts(v@).take(i as int));
        assert(texts(v@).take(i + 1).last() == v@[i as int]@);
        out.insert(v[i].as_str());
        i += 1;
    }
    assert(texts(v@).take(v@.len() as int) =~= texts(v@));
    out
}

} // verus!

//! Paths as text, and finite sets of them.
//!
//! A path is a `String`; its meaning in contracts is its sequence of
//! characters. A [`PathSet`] is a finite set of such sequences, kept in a
//! vector in which no path occurs twice.

use vstd::prelude::*;

verus! {

/// The character sequences of a list of paths, in the same order.
spec fn texts(items: Seq<String>) -> Seq<Seq<char>> {
    items.map_values(|s: String| s@)
}

/// Appending a value that does not occur keeps a list free of repetitions and
/// adds the value to the set of what occurs.
proof fn lemma_push_distinct(s: Seq<Seq<char>>, t: Seq<char>)
    requires
        s.no_duplicates(),
        !s.to_set().contains(t),
    ensures
        s.push(t).no_duplicates(),
        s.push(t).to_set() == s.to_set().insert(t),
{
    s.lemma_push_to_set_commute(t);
    assert forall|i: int, j: int|
        0 <= i < s.push(t).len() && 0 <= j < s.push(t).len() && i != j implies s.push(t)[i]
        != s.push(t)[j] by {
        if i < s.len() {
            assert(s.contains(s[i]));
        }
        if j < s.len() {
            assert(s.contains(s[j]));
        }
    }
}

/// Removing one position keeps a list free of repetitions and takes exactly the
/// value at that position out of the set of what occurs.
proof fn lemma_remove_distinct(s: Seq<Seq<char>>, i: int)
    requires
        s.no_duplicates(),
        0 <= i < s.len(),
    ensures
        s.remove(i).no_duplicates(),
        s.remove(i).to_set() == s.to_set().remove(s[i]),
{
    let r = s.remove(i);
    assert forall|a: int, b: int| 0 <= a < r.len() && 0 <= b < r.len() && a != b implies r[a]
        != r[b] by {
        let a0: int = if a < i { a } else { a + 1 };
        let b0: int = if b < i { b } else { b + 1 };
        assert(r[a] == s[a0]);
        assert(r[b] == s[b0]);
    }
    assert forall|t: Seq<char>| r.to_set().contains(t) <==> s.to_set().remove(s[i]).contains(
        t,
    ) by {
        if r.to_set().contains(t) {
            assert(r.contains(t));
            let a: int = choose|a: int| 0 <= a < r.len() && r[a] == t;
            let a0: int = if a < i { a } else { a + 1 };
            assert(s[a0] == t);
            assert(s.contains(t));
        }
        if s.to_set().remove(s[i]).contains(t) {
            assert(s.contains(t));
            let b: int = choose|b: int| 0 <= b < s.len() && s[b] == t;
            let b1: int = if b < i { b } else { b - 1 };
            assert(r[b1] == t);
            assert(r.contains(t));
        }
    }
    assert(r.to_set() =~= s.to_set().remove(s[i]));
}

/// A finite set of paths.
pub struct PathSet {
    items: Vec<String>,
}

impl View for PathSet {
    type V = Set<Seq<char>>;

    closed spec fn view(&self) -> Set<Seq<char>> {
        texts(self.items@).to_set()
    }
}

impl PathSet {
    /// No path is stored twice.
    #[verifier::type_invariant]
    spec fn distinct(&self) -> bool {
        texts(self.items@).no_duplicates()
    }

    /// Every path set is finite.
    pub proof fn lemma_finite(&self)
        ensures
            self@.finite(),
    {
        vstd::seq_lib::seq_to_set_is_finite(texts(self.items@));
    }

    /// The empty set.
    pub fn new() -> (s: Self)
        ensures
            s@ == Set::<Seq<char>>::empty(),
    {
        let s = PathSet { items: Vec::new() };
        assert(texts(s.items@) =~= Seq::<Seq<char>>::empty());
        assert(s@ =~= Set::<Seq<char>>::empty());
        s
    }

    /// The index at which `path` is stored, if it is a member.
    fn position(&self, path: &String) -> (at: Option<usize>)
        ensures
            match at {
                Some(i) => i < self.items@.len() && self.items@[i as int]@ == path@,
                None => !self@.contains(path@),
            },
            at is Some <==> self@.contains(path@),
    {
        let mut i: usize = 0;
        while i < self.items.len()
            invariant
                i <= self.items@.len(),
                forall|j: int| 0 <= j < i ==> self.items@[j]@ != path@,
            decreases self.items@.len() - i,
        {
            if self.items[i] == *path {
                assert(texts(self.items@)[i as int] == path@);
                return Some(i);
            }
            i += 1;
        }
        assert forall|j: int| 0 <= j < texts(self.items@).len() implies texts(self.items@)[j]
            != path@ by {
            assert(texts(self.items@)[j] == self.items@[j]@);
        }
        None
    }

    /// Whether `path` is a member.
    pub fn contains(&self, path: &String) -> (b: bool)
        ensures
            b == self@.contains(path@),
    {
        self.position(path).is_some()
    }

    /// Adds `path`. Returns whether it was absent before.
    pub fn insert(&mut self, path: String) -> (added: bool)
        ensures
            final(self)@ == old(self)@.insert(path@),
            added == !old(self)@.contains(path@),
    {
        proof {
            use_type_invariant(&*self);
        }
        if self.position(&path).is_some() {
            assert(self@.insert(path@) =~= self@);
            false
        } else {
            let ghost before = texts(self.items@);
            let mut items: Vec<String> = Vec::new();
            std::mem::swap(&mut self.items, &mut items);
            items.push(path);
            proof {
                assert(texts(items@) =~= before.push(path@));
                lemma_push_distinct(before, path@);
            }
            self.items = items;
            true
        }
    }

    /// Takes `path` out. Returns whether it was a member.
    pub fn remove(&mut self, path: &String) -> (removed: bool)
        ensures
            final(self)@ == old(self)@.remove(path@),
            removed == old(self)@.contains(path@),
    {
        proof {
            use_type_invariant(&*self);
        }
        match self.position(path) {
            Some(i) => {
                let ghost before = texts(self.items@);
                let mut items: Vec<String> = Vec::new();
                std::mem::swap(&mut self.items, &mut items);
                items.remove(i);
                proof {
                    assert(texts(items@) =~= before.remove(i as int));
                    lemma_remove_distinct(before, i as int);
                }
                self.items = items;
                true
            },
            None => {
                assert(self@.remove(path@) =~= self@);
                false
            },
        }
    }

    /// Takes every path out.
    pub fn clear(&mut self)
        ensures
            final(self)@ == Set::<Seq<char>>::empty(),
    {
        self.items = Vec::new();
        assert(texts(self.items@) =~= Seq::<Seq<char>>::empty());
        assert(self@ =~= Set::<Seq<char>>::empty());
    }

    /// The number of members.
    pub fn len(&self) -> (n: usize)
        ensures
            n == self@.len(),
    {
        proof {
            use_type_invariant(self);
            texts(self.items@).unique_seq_to_set();
        }
        self.items.len()
    }

    /// Whether the set has no member.
    pub fn is_empty(&self) -> (b: bool)
        ensures
            b == (self@ == Set::<Seq<char>>::empty()),
    {
        let b = self.items.len() == 0;
        proof {
            if b {
                assert(texts(self.items@) =~= Seq::<Seq<char>>::empty());
                assert(self@ =~= Set::<Seq<char>>::empty());
            } else {
                assert(texts(self.items@)[0] == self.items@[0]@);
                assert(texts(self.items@).contains(self.items@[0]@));
                assert(self@.contains(self.items@[0]@));
            }
        }
        b
    }
}

} // verus!

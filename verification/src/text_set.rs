//! Small sets of texts and of pairs of texts, held as lists.

use crate::text::{owned, text_eq};
use vstd::prelude::*;

verus! {

/// The texts in `v`.
pub open spec fn texts(v: Seq<String>) -> Set<Seq<char>> {
    v.map_values(|s: String| s@).to_set()
}

/// The pairs of texts in `v`.
pub open spec fn pairs(v: Seq<(String, String)>) -> Set<(Seq<char>, Seq<char>)> {
    v.map_values(|p: (String, String)| (p.0@, p.1@)).to_set()
}

proof fn texts_contains(v: Seq<String>, c: Seq<char>)
    ensures
        texts(v).contains(c) <==> exists|i: int| 0 <= i < v.len() && (#[trigger] v[i])@ == c,
{
    let m = v.map_values(|s: String| s@);
    if m.contains(c) {
        let i = choose|i: int| 0 <= i < m.len() && m[i] == c;
        assert(v[i]@ == c);
    }
    if exists|i: int| 0 <= i < v.len() && (#[trigger] v[i])@ == c {
        let i = choose|i: int| 0 <= i < v.len() && (#[trigger] v[i])@ == c;
        assert(m[i] == c);
    }
}

proof fn pairs_contains(v: Seq<(String, String)>, c: (Seq<char>, Seq<char>))
    ensures
        pairs(v).contains(c) <==> exists|i: int|
            0 <= i < v.len() && (#[trigger] v[i]).0@ == c.0 && v[i].1@ == c.1,
{
    let m = v.map_values(|p: (String, String)| (p.0@, p.1@));
    if m.contains(c) {
        let i = choose|i: int| 0 <= i < m.len() && m[i] == c;
        assert(v[i].0@ == c.0 && v[i].1@ == c.1);
    }
    if exists|i: int| 0 <= i < v.len() && (#[trigger] v[i]).0@ == c.0 && v[i].1@ == c.1 {
        let i = choose|i: int|
            0 <= i < v.len() && (#[trigger] v[i]).0@ == c.0 && v[i].1@ == c.1;
        assert(m[i] == c);
    }
}

proof fn texts_push(v: Seq<String>, s: String)
    ensures
        texts(v.push(s)) == texts(v).insert(s@),
{
    let w = v.push(s);
    assert forall|c: Seq<char>| texts(w).contains(c) == texts(v).insert(s@).contains(c) by {
        texts_contains(w, c);
        texts_contains(v, c);
        assert(w[v.len() as int]@ == s@);
        if texts(v).contains(c) {
            let i = choose|i: int| 0 <= i < v.len() && (#[trigger] v[i])@ == c;
            assert(w[i]@ == c);
        }
        if texts(w).contains(c) && c != s@ {
            let i = choose|i: int| 0 <= i < w.len() && (#[trigger] w[i])@ == c;
            assert(v[i]@ == c);
        }
    }
    assert(texts(w) =~= texts(v).insert(s@));
}

proof fn pairs_push(v: Seq<(String, String)>, p: (String, String))
    ensures
        pairs(v.push(p)) == pairs(v).insert((p.0@, p.1@)),
{
    let w = v.push(p);
    assert forall|c: (Seq<char>, Seq<char>)|
        pairs(w).contains(c) == pairs(v).insert((p.0@, p.1@)).contains(c) by {
        pairs_contains(w, c);
        pairs_contains(v, c);
        assert(w[v.len() as int].0@ == p.0@ && w[v.len() as int].1@ == p.1@);
        if pairs(v).contains(c) {
            let i = choose|i: int|
                0 <= i < v.len() && (#[trigger] v[i]).0@ == c.0 && v[i].1@ == c.1;
            assert(w[i].0@ == c.0 && w[i].1@ == c.1);
        }
        if pairs(w).contains(c) && c != (p.0@, p.1@) {
            let i = choose|i: int|
                0 <= i < w.len() && (#[trigger] w[i]).0@ == c.0 && w[i].1@ == c.1;
            assert(v[i].0@ == c.0 && v[i].1@ == c.1);
        }
    }
    assert(pairs(w) =~= pairs(v).insert((p.0@, p.1@)));
}

proof fn nothing_held()
    ensures
        texts(Seq::empty()) == Set::<Seq<char>>::empty(),
        pairs(Seq::empty()) == Set::<(Seq<char>, Seq<char>)>::empty(),
{
    assert forall|c: Seq<char>| !texts(Seq::empty()).contains(c) by {
        texts_contains(Seq::empty(), c);
    }
    assert forall|c: (Seq<char>, Seq<char>)| !pairs(Seq::empty()).contains(c) by {
        pairs_contains(Seq::empty(), c);
    }
    assert(texts(Seq::empty()) =~= Set::<Seq<char>>::empty());
    assert(pairs(Seq::empty()) =~= Set::<(Seq<char>, Seq<char>)>::empty());
}

/// A set of texts.
#[derive(Debug)]
pub struct TextSet {
    pub items: Vec<String>,
}

impl View for TextSet {
    type V = Set<Seq<char>>;

    open spec fn view(&self) -> Set<Seq<char>> {
        texts(self.items@)
    }
}

impl TextSet {
    /// The empty set.
    pub fn new() -> (r: TextSet)
        ensures
            r@ == Set::<Seq<char>>::empty(),
    {
        proof {
            nothing_held();
        }
        TextSet { items: Vec::new() }
    }

    /// Whether the set is empty.
    pub fn is_empty(&self) -> (r: bool)
        ensures
            r == (self@ == Set::<Seq<char>>::empty()),
    {
        proof {
            nothing_held();
            if self.items@.len() > 0 {
                texts_contains(self.items@, self.items@[0]@);
                assert(self@.contains(self.items@[0]@));
            } else {
                assert(self.items@ =~= Seq::empty());
            }
        }
        self.items.len() == 0
    }

    /// Whether `text` is in the set.
    pub fn contains(&self, text: &str) -> (r: bool)
        ensures
            r == self@.contains(text@),
    {
        let mut i: usize = 0;
        proof {
            texts_contains(self.items@, text@);
        }
        while i < self.items.len()
            invariant
                i <= self.items.len(),
                forall|j: int| 0 <= j < i ==> (#[trigger] self.items@[j])@ != text@,
                texts(self.items@).contains(text@) <==> exists|i: int|
                    0 <= i < self.items@.len() && (#[trigger] self.items@[i])@ == text@,
            decreases self.items.len() - i,
        {
            if text_eq(self.items[i].as_str(), text) {
                return true;
            }
            i = i + 1;
        }
        false
    }

    /// Put `text` in the set.
    pub fn insert(&mut self, text: &str)
        ensures
            final(self)@ == old(self)@.insert(text@),
    {
        let ghost before = self@;
        if !self.contains(text) {
            let item: String = owned(text);
            proof {
                texts_push(self.items@, item);
            }
            self.items.push(item);
        } else {
            assert(before.insert(text@) =~= before);
        }
    }

    /// Take `text` out of the set.
    pub fn remove(&mut self, text: &str)
        ensures
            final(self)@ == old(self)@.remove(text@),
    {
        let ghost v = self.items@;
        let mut kept: Vec<String> = Vec::new();
        let mut i: usize = 0;
        proof {
            nothing_held();
            assert(v.take(0) =~= Seq::empty());
            assert(texts(kept@) =~= texts(v.take(0)).remove(text@));
        }
        while i < self.items.len()
            invariant
                i <= self.items.len(),
                self.items@ == v,
                texts(kept@) == texts(v.take(i as int)).remove(text@),
            decreases self.items.len() - i,
        {
            proof {
                texts_push(v.take(i as int), v[i as int]);
                assert(v.take(i + 1) =~= v.take(i as int).push(v[i as int]));
            }
            let ghost kept0 = kept@;
            if !text_eq(self.items[i].as_str(), text) {
                proof {
                    texts_push(kept0, v[i as int]);
                }
                kept.push(self.items[i].clone());
            }
            assert(texts(kept@) =~= texts(v.take(i + 1)).remove(text@));
            i = i + 1;
        }
        assert(v.take(i as int) =~= v);
        self.items = kept;
    }
}

/// A set of pairs of texts.
#[derive(Debug)]
pub struct PairSet {
    pub items: Vec<(String, String)>,
}

impl View for PairSet {
    type V = Set<(Seq<char>, Seq<char>)>;

    open spec fn view(&self) -> Set<(Seq<char>, Seq<char>)> {
        pairs(self.items@)
    }
}

impl PairSet {
    /// The empty set.
    pub fn new() -> (r: PairSet)
        ensures
            r@ == Set::<(Seq<char>, Seq<char>)>::empty(),
    {
        proof {
            nothing_held();
        }
        PairSet { items: Vec::new() }
    }

    /// Whether the pair is in the set.
    pub fn contains(&self, first: &str, second: &str) -> (r: bool)
        ensures
            r == self@.contains((first@, second@)),
    {
        let mut i: usize = 0;
        proof {
            pairs_contains(self.items@, (first@, second@));
        }
        while i < self.items.len()
            invariant
                i <= self.items.len(),
                forall|j: int|
                    0 <= j < i ==> !((#[trigger] self.items@[j]).0@ == first@ && self.items@[j].1@
                        == second@),
                pairs(self.items@).contains((first@, second@)) <==> exists|i: int|
                    0 <= i < self.items@.len() && (#[trigger] self.items@[i]).0@ == first@
                        && self.items@[i].1@ == second@,
            decreases self.items.len() - i,
        {
            if text_eq(self.items[i].0.as_str(), first) && text_eq(
                self.items[i].1.as_str(),
                second,
            ) {
                return true;
            }
            i = i + 1;
        }
        false
    }

    /// Put the pair in the set.
    pub fn insert(&mut self, first: &str, second: &str)
        ensures
            final(self)@ == old(self)@.insert((first@, second@)),
    {
        let ghost before = self@;
        if !self.contains(first, second) {
            let item: (String, String) = (owned(first), owned(second));
            proof {
                pairs_push(self.items@, item);
            }
            self.items.push(item);
        } else {
            assert(before.insert((first@, second@)) =~= before);
        }
    }

    /// Take the pair out of the set.
    pub fn remove(&mut self, first: &str, second: &str)
        ensures
            final(self)@ == old(self)@.remove((first@, second@)),
    {
        let ghost v = self.items@;
        let ghost key = (first@, second@);
        let mut kept: Vec<(String, String)> = Vec::new();
        let mut i: usize = 0;
        proof {
            nothing_held();
            assert(v.take(0) =~= Seq::empty());
            assert(pairs(kept@) =~= pairs(v.take(0)).remove(key));
        }
        while i < self.items.len()
            invariant
                i <= self.items.len(),
                self.items@ == v,
                key == (first@, second@),
                pairs(kept@) == pairs(v.take(i as int)).remove(key),
            decreases self.items.len() - i,
        {
            proof {
                pairs_push(v.take(i as int), v[i as int]);
                assert(v.take(i + 1) =~= v.take(i as int).push(v[i as int]));
            }
            let ghost kept0 = kept@;
            if !(text_eq(self.items[i].0.as_str(), first) && text_eq(
                self.items[i].1.as_str(),
                second,
            )) {
                proof {
                    pairs_push(kept0, v[i as int]);
                }
                kept.push((self.items[i].0.clone(), self.items[i].1.clone()));
            }
            assert(pairs(kept@) =~= pairs(v.take(i + 1)).remove(key));
            i = i + 1;
        }
        assert(v.take(i as int) =~= v);
        self.items = kept;
    }
}

} // verus!

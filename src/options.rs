//! The configuration bag: named option values, each name at most once.
use vstd::prelude::*;

verus! {

/// Option values keyed by name; names are case-sensitive and distinct.
pub struct Options {
    entries: Vec<(String, String)>,
}

impl View for Options {
    type V = Map<Seq<char>, Seq<char>>;

    closed spec fn view(&self) -> Map<Seq<char>, Seq<char>> {
        Map::new(
            |k: Seq<char>| exists|i: int| 0 <= i < self.entries.len() && #[trigger] self.entries[i].0@ == k,
            |k: Seq<char>| self.entries[choose|i: int| 0 <= i < self.entries.len() && #[trigger] self.entries[i].0@ == k].1@,
        )
    }
}

impl Options {
    /// Each name occurs in one entry only.
    pub closed spec fn wf(&self) -> bool {
        forall|i: int, j: int|
            0 <= i < j < self.entries.len() ==> #[trigger] self.entries[i].0@ != #[trigger] self.entries[j].0@
    }

    proof fn lemma_entry_in_view(&self, i: int)
        requires
            self.wf(),
            0 <= i < self.entries.len(),
        ensures
            self@.contains_key(self.entries[i].0@),
            self@[self.entries[i].0@] == self.entries[i].1@,
    {
        let k = self.entries[i].0@;
        assert(self@.contains_key(k));
        let j = choose|j: int| 0 <= j < self.entries.len() && #[trigger] self.entries[j].0@ == k;
        assert(self.entries[j].0@ == k);
        if j < i {
            assert(self.entries[j].0@ != self.entries[i].0@);
        } else if i < j {
            assert(self.entries[i].0@ != self.entries[j].0@);
        }
    }

    /// An empty bag.
    pub fn new() -> (r: Options)
        ensures
            r.wf(),
            r@ == Map::<Seq<char>, Seq<char>>::empty(),
    {
        let r = Options { entries: Vec::new() };
        assert(r@ =~= Map::<Seq<char>, Seq<char>>::empty());
        r
    }

    /// The position of the entry named `name`, if any.
    fn position(&self, name: &str) -> (r: Option<usize>)
        requires
            self.wf(),
        ensures
            match r {
                Some(i) => i < self.entries.len() && self.entries[i as int].0@ == name@,
                None => !self@.contains_key(name@),
            },
    {
        let wanted = name.to_owned();
        let mut i: usize = 0;
        while i < self.entries.len()
            invariant
                wanted@ == name@,
                i <= self.entries.len(),
                forall|j: int| 0 <= j < i ==> #[trigger] self.entries[j].0@ != name@,
            decreases self.entries.len() - i,
        {
            if self.entries[i].0 == wanted {
                return Some(i);
            }
            i = i + 1;
        }
        None
    }

    /// The value stored under `name`, if any.
    pub fn get(&self, name: &str) -> (r: Option<&str>)
        requires
            self.wf(),
        ensures
            match r {
                Some(v) => self@.contains_key(name@) && v@ == self@[name@],
                None => !self@.contains_key(name@),
            },
    {
        match self.position(name) {
            Some(i) => {
                proof {
                    self.lemma_entry_in_view(i as int);
                }
                Some(self.entries[i].1.as_str())
            },
            None => None,
        }
    }

    /// Stores `value` under `name`, replacing what was there.
    pub fn insert(&mut self, name: &str, value: &str)
        requires
            old(self).wf(),
        ensures
            final(self).wf(),
            final(self)@ == old(self)@.insert(name@, value@),
    {
        let entry = (name.to_owned(), value.to_owned());
        match self.position(name) {
            Some(i) => {
                self.entries.set(i, entry);
                proof {
                    assert forall|a: int, b: int| 0 <= a < b < self.entries.len() implies
                        #[trigger] self.entries[a].0@ != #[trigger] self.entries[b].0@ by {
                        assert(old(self).entries[a].0@ != old(self).entries[b].0@);
                    }
                    self.lemma_view_after(old(self), i as int);
                }
            },
            None => {
                self.entries.push(entry);
                proof {
                    assert forall|a: int, b: int| 0 <= a < b < self.entries.len() implies
                        #[trigger] self.entries[a].0@ != #[trigger] self.entries[b].0@ by {
                        if b < old(self).entries.len() {
                            assert(old(self).entries[a].0@ != old(self).entries[b].0@);
                        } else {
                            assert(old(self).entries[a].0@ == self.entries[a].0@);
                            assert(self.entries[b].0@ == name@);
                            old(self).lemma_entry_in_view(a);
                        }
                    }
                    self.lemma_view_after(old(self), (self.entries.len() - 1) as int);
                }
            },
        }
    }

    /// After `name` was written at position `i` and every other entry kept,
    /// the view is the old one with that key set.
    proof fn lemma_view_after(&self, prev: &Options, i: int)
        requires
            self.wf(),
            prev.wf(),
            0 <= i < self.entries.len(),
            self.entries.len() == prev.entries.len() || self.entries.len() == prev.entries.len() + 1,
            i < prev.entries.len() ==> prev.entries[i].0@ == self.entries[i].0@,
            i == prev.entries.len() ==> !prev@.contains_key(self.entries[i].0@),
            i >= prev.entries.len() ==> i == prev.entries.len(),
            self.entries.len() > prev.entries.len() ==> i == prev.entries.len(),
            forall|j: int| 0 <= j < prev.entries.len() && j != i ==> self.entries[j] == prev.entries[j],
        ensures
            self@ == prev@.insert(self.entries[i].0@, self.entries[i].1@),
    {
        let k = self.entries[i].0@;
        let want = prev@.insert(k, self.entries[i].1@);
        assert forall|x: Seq<char>| #[trigger] self@.contains_key(x) <==> want.contains_key(x) by {
            if self@.contains_key(x) {
                let j = choose|j: int| 0 <= j < self.entries.len() && #[trigger] self.entries[j].0@ == x;
                if j != i {
                    assert(j < prev.entries.len());
                    assert(self.entries[j] == prev.entries[j]);
                    assert(prev.entries[j].0@ == x);
                }
            }
            if want.contains_key(x) && x != k {
                let j = choose|j: int| 0 <= j < prev.entries.len() && #[trigger] prev.entries[j].0@ == x;
                assert(self.entries[j].0@ == x);
            }
            if x == k {
                assert(self.entries[i].0@ == x);
            }
        }
        assert forall|x: Seq<char>| #[trigger] self@.contains_key(x) implies self@[x] == want[x] by {
            let j = choose|j: int| 0 <= j < self.entries.len() && #[trigger] self.entries[j].0@ == x;
            self.lemma_entry_in_view(j);
            if j != i {
                prev.lemma_entry_in_view(j);
            }
        }
        assert(self@ =~= want);
    }
}

} // verus!

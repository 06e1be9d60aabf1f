//! The registry that routes a channel name to its subscription.
use vstd::prelude::*;

verus! {

/// Channel names bound to subscription handles, each name once.
#[derive(Debug)]
pub struct Registry<S> {
    pub entries: Vec<(String, S)>,
}

/// No channel name stands twice.
pub open spec fn names_unique<S>(s: Seq<(String, S)>) -> bool {
    forall|i: int, j: int| 0 <= i < s.len() && 0 <= j < s.len() && i != j ==> s[i].0@ != s[j].0@
}

/// The position of channel `c`, if it is registered.
pub open spec fn slot<S>(s: Seq<(String, S)>, c: Seq<char>) -> int {
    choose|i: int| 0 <= i < s.len() && s[i].0@ == c
}

/// The registry as a map from channel names to handles.
pub open spec fn as_map<S>(s: Seq<(String, S)>) -> Map<Seq<char>, S> {
    Map::new(
        |c: Seq<char>| exists|i: int| 0 <= i < s.len() && s[i].0@ == c,
        |c: Seq<char>| s[slot(s, c)].1,
    )
}

proof fn lemma_slot<S>(s: Seq<(String, S)>, i: int)
    requires
        names_unique(s),
        0 <= i < s.len(),
    ensures
        slot(s, s[i].0@) == i,
        as_map(s).contains_key(s[i].0@),
        as_map(s)[s[i].0@] == s[i].1,
{
    let j = slot(s, s[i].0@);
    assert(0 <= j < s.len() && s[j].0@ == s[i].0@);
}

impl<S> Registry<S> {
    pub open spec fn view(&self) -> Map<Seq<char>, S> {
        as_map(self.entries@)
    }

    pub open spec fn wf(&self) -> bool {
        names_unique(self.entries@)
    }

    /// An empty registry.
    pub fn new() -> (r: Registry<S>)
        ensures
            r.wf(),
            r@ == Map::<Seq<char>, S>::empty(),
    {
        let r = Registry { entries: Vec::new() };
        assert(r@ =~= Map::<Seq<char>, S>::empty());
        r
    }

    fn find(&self, c: &str) -> (r: Option<usize>)
        requires
            self.wf(),
        ensures
            r is None == !self@.contains_key(c@),
            r matches Some(i) ==> i < self.entries@.len() && self.entries@[i as int].0@ == c@,
    {
        let key = String::from_str(c);
        let mut i: usize = 0;
        while i < self.entries.len()
            invariant
                i <= self.entries@.len(),
                key@ == c@,
                forall|j: int| 0 <= j < i ==> self.entries@[j].0@ != c@,
            decreases self.entries@.len() - i,
        {
            if self.entries[i].0 == key {
                return Some(i);
            }
            i = i + 1;
        }
        None
    }

    /// The handle registered under channel `c`.
    pub fn lookup(&self, c: &str) -> (r: Option<&S>)
        requires
            self.wf(),
        ensures
            r is Some == self@.contains_key(c@),
            r matches Some(s) ==> *s == self@[c@],
    {
        match self.find(c) {
            Some(i) => {
                proof {
                    lemma_slot(self.entries@, i as int);
                }
                Some(&self.entries[i].1)
            },
            None => None,
        }
    }

    /// Registers `s` under channel `c`, in place of any handle there.
    pub fn register(&mut self, c: String, s: S)
        requires
            old(self).wf(),
        ensures
            final(self).wf(),
            final(self)@ == old(self)@.insert(c@, s),
    {
        let ghost before = self.entries@;
        match self.find(c.as_str()) {
            Some(i) => {
                proof {
                    lemma_slot(before, i as int);
                }
                let ghost cv = c@;
                self.entries.set(i, (c, s));
                let ghost after = self.entries@;
                assert(after == before.update(i as int, (after[i as int].0, s)));
                assert forall|k: Seq<char>| #[trigger] self@.contains_key(k) == old(self)@.insert(cv, s).contains_key(k) by {
                    if k != cv && old(self)@.contains_key(k) {
                        let j = slot(before, k);
                        assert(after[j].0@ == k);
                    }
                    if self@.contains_key(k) && k != cv {
                        let j = slot(after, k);
                        assert(before[j].0@ == k);
                    }
                }
                assert forall|k: Seq<char>| self@.contains_key(k) implies #[trigger] self@[k] == old(self)@.insert(cv, s)[k] by {
                    let j = slot(after, k);
                    lemma_slot(after, j);
                    if k != cv {
                        lemma_slot(before, j);
                    }
                }
                assert(self@ =~= old(self)@.insert(cv, s));
            },
            None => {
                let ghost cv = c@;
                self.entries.push((c, s));
                let ghost after = self.entries@;
                assert forall|k: Seq<char>| #[trigger] self@.contains_key(k) == old(self)@.insert(cv, s).contains_key(k) by {
                    if k != cv && old(self)@.contains_key(k) {
                        let j = slot(before, k);
                        assert(after[j].0@ == k);
                    }
                    if k == cv {
                        assert(after[before.len() as int].0@ == k);
                    }
                }
                assert forall|k: Seq<char>| self@.contains_key(k) implies #[trigger] self@[k] == old(self)@.insert(cv, s)[k] by {
                    let j = slot(after, k);
                    lemma_slot(after, j);
                    if j < before.len() {
                        lemma_slot(before, j);
                    }
                }
                assert(self@ =~= old(self)@.insert(cv, s));
            },
        }
    }

    /// Removes the handle registered under channel `c`, and returns it.
    pub fn remove(&mut self, c: &str) -> (r: Option<S>)
        requires
            old(self).wf(),
        ensures
            final(self).wf(),
            final(self)@ == old(self)@.remove(c@),
            r is Some == old(self)@.contains_key(c@),
            r matches Some(s) ==> s == old(self)@[c@],
    {
        let ghost before = self.entries@;
        match self.find(c) {
            Some(i) => {
                proof {
                    lemma_slot(before, i as int);
                }
                let e = self.entries.remove(i);
                let ghost after = self.entries@;
                assert(after == before.remove(i as int));
                assert forall|k: Seq<char>| #[trigger] self@.contains_key(k) == old(self)@.remove(c@).contains_key(k) by {
                    if k != c@ && old(self)@.contains_key(k) {
                        let j = slot(before, k);
                        assert(j != i);
                        if j < i {
                            assert(after[j].0@ == k);
                        } else {
                            assert(after[j - 1].0@ == k);
                        }
                    }
                    if self@.contains_key(k) {
                        let j = slot(after, k);
                        if j < i {
                            assert(before[j].0@ == k);
                        } else {
                            assert(before[j + 1].0@ == k);
                        }
                    }
                }
                assert forall|k: Seq<char>| self@.contains_key(k) implies #[trigger] self@[k] == old(self)@.remove(c@)[k] by {
                    let j = slot(after, k);
                    lemma_slot(after, j);
                    if j < i {
                        lemma_slot(before, j);
                    } else {
                        lemma_slot(before, j + 1);
                    }
                }
                assert(self@ =~= old(self)@.remove(c@));
                Some(e.1)
            },
            None => {
                assert(self@ =~= old(self)@.remove(c@));
                None
            },
        }
    }

    /// Moves the handle under channel `from` to channel `to`, at once.
    /// Returns whether there was one.
    pub fn rename(&mut self, from: &str, to: String) -> (r: bool)
        requires
            old(self).wf(),
        ensures
            final(self).wf(),
            r == old(self)@.contains_key(from@),
            r ==> final(self)@ == old(self)@.remove(from@).insert(to@, old(self)@[from@]),
            !r ==> final(self)@ == old(self)@,
    {
        match self.remove(from) {
            Some(s) => {
                self.register(to, s);
                true
            },
            None => {
                assert(self@ =~= old(self)@);
                false
            },
        }
    }

    /// The registered channel names, in registration order.
    pub fn channels(&self) -> (r: Vec<String>)
        ensures
            r@.len() == self.entries@.len(),
            forall|i: int| 0 <= i < r@.len() ==> (#[trigger] r@[i])@ == self.entries@[i].0@,
    {
        let mut out: Vec<String> = Vec::new();
        let mut i: usize = 0;
        while i < self.entries.len()
            invariant
                i <= self.entries@.len(),
                out@.len() == i,
                forall|j: int| 0 <= j < i ==> (#[trigger] out@[j])@ == self.entries@[j].0@,
            decreases self.entries@.len() - i,
        {
            out.push(self.entries[i].0.clone());
            i = i + 1;
        }
        out
    }

    pub fn len(&self) -> (r: usize)
        ensures
            r == self.entries@.len(),
    {
        self.entries.len()
    }
}

/// A handle registered under a channel is what a lookup of that channel
/// finds; after a rename the old channel finds nothing and the new one finds
/// the handle, while every other channel is unaffected.
pub proof fn lemma_register_rename<S>(m: Map<Seq<char>, S>, c: Seq<char>, d: Seq<char>, s: S)
    ensures
        m.insert(c, s).contains_key(c) && m.insert(c, s)[c] == s,
        m.contains_key(c) && c != d ==> {
            let n = m.remove(c).insert(d, m[c]);
            &&& !n.contains_key(c)
            &&& n.contains_key(d) && n[d] == m[c]
            &&& forall|k: Seq<char>| k != c && k != d ==> (n.contains_key(k) == m.contains_key(k)
                && (m.contains_key(k) ==> n[k] == m[k]))
        },
{
}

} // verus!

use vstd::prelude::*;

verus! {

/// A map from text names to values that keeps the order in which names were
/// first inserted. Each name occurs at most once.
pub struct NameMap<T> {
    entries: Vec<(String, T)>,
    contents: Ghost<Map<Seq<char>, T>>,
}

impl<T> View for NameMap<T> {
    type V = Map<Seq<char>, T>;

    closed spec fn view(&self) -> Map<Seq<char>, T> {
        self.contents@
    }
}

impl<T> NameMap<T> {
    /// The entries in insertion order.
    pub closed spec fn pairs(&self) -> Seq<(String, T)> {
        self.entries@
    }

    /// Names are unique, and the entries hold exactly the mapping of the view.
    pub closed spec fn wf(&self) -> bool {
        &&& forall|i: int, j: int|
            0 <= i < j < self.entries@.len() ==> self.entries@[i].0@ != self.entries@[j].0@
        &&& forall|i: int|
            0 <= i < self.entries@.len() ==> #[trigger] self.contents@.contains_key(
                self.entries@[i].0@,
            ) && self.contents@[self.entries@[i].0@] == self.entries@[i].1
        &&& forall|k: Seq<char>| #[trigger]
            self.contents@.contains_key(k) ==> exists|i: int|
                0 <= i < self.entries@.len() && self.entries@[i].0@ == k
    }

    pub fn new() -> (r: Self)
        ensures
            r.wf(),
            r@ == Map::<Seq<char>, T>::empty(),
            r.pairs() == Seq::<(String, T)>::empty(),
    {
        NameMap { entries: Vec::new(), contents: Ghost(Map::empty()) }
    }

    pub fn len(&self) -> (r: usize)
        ensures
            r == self.pairs().len(),
    {
        self.entries.len()
    }

    pub fn is_empty(&self) -> (r: bool)
        requires
            self.wf(),
        ensures
            r == (self.pairs().len() == 0),
            r == (self@ == Map::<Seq<char>, T>::empty()),
    {
        if self.entries.len() == 0 {
            assert(self@ =~= Map::<Seq<char>, T>::empty());
            true
        } else {
            assert(self@.contains_key(self.entries@[0].0@));
            false
        }
    }

    /// The name and value at position `i` of the insertion order.
    pub fn entry(&self, i: usize) -> (r: (&String, &T))
        requires
            i < self.pairs().len(),
        ensures
            *r.0 == self.pairs()[i as int].0,
            *r.1 == self.pairs()[i as int].1,
    {
        let e = &self.entries[i];
        (&e.0, &e.1)
    }

    /// The position of `key` in the insertion order, if it is present.
    fn find(&self, key: &String) -> (r: Option<usize>)
        requires
            self.wf(),
        ensures
            match r {
                Some(i) => i < self.pairs().len() && self.pairs()[i as int].0@ == key@
                    && self@.contains_key(key@),
                None => !self@.contains_key(key@),
            },
    {
        let mut i: usize = 0;
        while i < self.entries.len()
            invariant
                self.wf(),
                i <= self.entries@.len(),
                forall|j: int| 0 <= j < i ==> self.entries@[j].0@ != key@,
            decreases self.entries@.len() - i,
        {
            if self.entries[i].0 == *key {
                assert(self.contents@.contains_key(self.entries@[i as int].0@));
                return Some(i);
            }
            i += 1;
        }
        None
    }

    pub fn get(&self, key: &str) -> (r: Option<&T>)
        requires
            self.wf(),
        ensures
            r == (if self@.contains_key(key@) {
                Some(&self@[key@])
            } else {
                None
            }),
    {
        let k = String::from_str(key);
        match self.find(&k) {
            Some(i) => {
                assert(self.contents@.contains_key(self.entries@[i as int].0@));
                Some(&self.entries[i].1)
            },
            None => None,
        }
    }

    pub fn contains_key(&self, key: &str) -> (r: bool)
        requires
            self.wf(),
        ensures
            r == self@.contains_key(key@),
    {
        let k = String::from_str(key);
        self.find(&k).is_some()
    }

    /// Binds `key` to `value`; a name already present keeps its position.
    /// Returns the value it was bound to before, if any.
    pub fn insert(&mut self, key: String, value: T) -> (r: Option<T>)
        requires
            old(self).wf(),
        ensures
            final(self).wf(),
            final(self)@ == old(self)@.insert(key@, value),
            r == (if old(self)@.contains_key(key@) {
                Some(old(self)@[key@])
            } else {
                None
            }),
            !old(self)@.contains_key(key@) ==> final(self).pairs() == old(self).pairs().push(
                (key, value),
            ),
            old(self)@.contains_key(key@) ==> exists|i: int|
                0 <= i < old(self).pairs().len() && old(self).pairs()[i].0@ == key@
                    && final(self).pairs() == old(self).pairs().update(i, (key, value)),
    {
        let ghost old_entries = self.entries@;
        let ghost new_contents = self.contents@.insert(key@, value);
        match self.find(&key) {
            Some(i) => {
                assert(self.contents@.contains_key(self.entries@[i as int].0@));
                let (_, prior) = self.entries.remove(i);
                self.entries.insert(i, (key, value));
                assert(self.entries@ =~= old_entries.update(i as int, (key, value)));
                self.contents = Ghost(new_contents);
                assert forall|k: Seq<char>| #[trigger]
                    self.contents@.contains_key(k) implies exists|j: int|
                        0 <= j < self.entries@.len() && self.entries@[j].0@ == k by {
                    if k != key@ {
                        let j = choose|j: int| 0 <= j < old_entries.len() && old_entries[j].0@ == k;
                        assert(self.entries@[j].0@ == k);
                    } else {
                        assert(self.entries@[i as int].0@ == k);
                    }
                }
                Some(prior)
            },
            None => {
                self.entries.push((key, value));
                assert(self.entries@ =~= old_entries.push((key, value)));
                self.contents = Ghost(new_contents);
                assert forall|j: int| 0 <= j < old_entries.len() implies old_entries[j].0@ != key@ by {
                    assert(old(self).contents@.contains_key(old_entries[j].0@));
                }
                assert forall|k: Seq<char>| #[trigger]
                    self.contents@.contains_key(k) implies exists|j: int|
                        0 <= j < self.entries@.len() && self.entries@[j].0@ == k by {
                    if k != key@ {
                        let j = choose|j: int| 0 <= j < old_entries.len() && old_entries[j].0@ == k;
                        assert(self.entries@[j].0@ == k);
                    } else {
                        assert(self.entries@[old_entries.len() as int].0@ == k);
                    }
                }
                None
            },
        }
    }

    /// Removes `key` and returns the value it was bound to, if any; the
    /// remaining entries keep their order.
    pub fn remove(&mut self, key: &str) -> (r: Option<T>)
        requires
            old(self).wf(),
        ensures
            final(self).wf(),
            final(self)@ == old(self)@.remove(key@),
            r == (if old(self)@.contains_key(key@) {
                Some(old(self)@[key@])
            } else {
                None
            }),
            !old(self)@.contains_key(key@) ==> final(self).pairs() == old(self).pairs(),
            old(self)@.contains_key(key@) ==> exists|i: int|
                0 <= i < old(self).pairs().len() && old(self).pairs()[i].0@ == key@
                    && final(self).pairs() == old(self).pairs().remove(i),
    {
        let k = String::from_str(key);
        let ghost old_entries = self.entries@;
        let ghost new_contents = self.contents@.remove(key@);
        match self.find(&k) {
            Some(i) => {
                assert(self.contents@.contains_key(self.entries@[i as int].0@));
                let (_, prior) = self.entries.remove(i);
                assert(self.entries@ =~= old_entries.remove(i as int));
                self.contents = Ghost(new_contents);
                assert forall|j: int| 0 <= j < self.entries@.len() implies #[trigger]
                    self.contents@.contains_key(self.entries@[j].0@) && self.contents@[self.entries@[j].0@]
                        == self.entries@[j].1 by {
                    let oj = if j < i { j } else { j + 1 };
                    assert(self.entries@[j] == old_entries[oj]);
                    assert(old(self).contents@.contains_key(old_entries[oj].0@));
                    assert(old_entries[oj].0@ != old_entries[i as int].0@);
                }
                assert forall|kk: Seq<char>| #[trigger]
                    self.contents@.contains_key(kk) implies exists|j: int|
                        0 <= j < self.entries@.len() && self.entries@[j].0@ == kk by {
                    let oj = choose|j: int| 0 <= j < old_entries.len() && old_entries[j].0@ == kk;
                    assert(oj != i);
                    if oj < i {
                        assert(self.entries@[oj].0@ == kk);
                    } else {
                        assert(self.entries@[oj - 1].0@ == kk);
                    }
                }
                Some(prior)
            },
            None => {
                assert(self.contents@ =~= new_contents);
                None
            },
        }
    }
}

} // verus!

use vstd::prelude::*;

verus! {

/// A key-value store keyed by account strkey, as contract storage holds it:
/// each key is stored at most once, and a write replaces the stored value.
pub struct KeyedStore<V> {
    items: Vec<(String, V)>,
    contents: Ghost<Map<Seq<char>, V>>,
}

impl<V: Copy> KeyedStore<V> {
    /// What the store holds, key by key.
    pub closed spec fn view(&self) -> Map<Seq<char>, V> {
        self.contents@
    }

    /// The entries agree with the abstract map and no key is stored twice.
    pub closed spec fn wf(&self) -> bool {
        &&& forall|i: int|
            0 <= i < self.items@.len() ==> {
                &&& #[trigger] self.contents@.contains_key(self.items@[i].0@)
                &&& self.contents@[self.items@[i].0@] == self.items@[i].1
            }
        &&& forall|k: Seq<char>|
            #[trigger] self.contents@.contains_key(k) ==> exists|i: int|
                0 <= i < self.items@.len() && #[trigger] self.items@[i].0@ == k
        &&& forall|i: int, j: int|
            0 <= i < self.items@.len() && 0 <= j < self.items@.len() && i != j
                ==> #[trigger] self.items@[i].0@ != #[trigger] self.items@[j].0@
    }

    pub fn new() -> (s: Self)
        ensures
            s.wf(),
            s.view() == Map::<Seq<char>, V>::empty(),
    {
        KeyedStore { items: Vec::new(), contents: Ghost(Map::empty()) }
    }

    fn find(&self, key: &String) -> (r: Option<usize>)
        requires
            self.wf(),
        ensures
            match r {
                Some(i) => i < self.items@.len() && self.items@[i as int].0@ == key@,
                None => !self.view().contains_key(key@),
            },
    {
        let n = self.items.len();
        let mut i: usize = 0;
        while i < n
            invariant
                self.wf(),
                n == self.items@.len(),
                i <= n,
                forall|j: int| 0 <= j < i ==> #[trigger] self.items@[j].0@ != key@,
            decreases n - i,
        {
            if self.items[i].0 == *key {
                return Some(i);
            }
            i = i + 1;
        }
        None
    }

    /// The value stored under `key`, if any.
    pub fn get(&self, key: &String) -> (r: Option<V>)
        requires
            self.wf(),
        ensures
            r == (if self.view().contains_key(key@) {
                Some(self.view()[key@])
            } else {
                None::<V>
            }),
    {
        match self.find(key) {
            Some(i) => {
                assert(self.view().contains_key(self.items@[i as int].0@));
                Some(self.items[i].1)
            },
            None => None,
        }
    }

    /// Stores `value` under `key`, replacing what was there.
    pub fn set(&mut self, key: String, value: V)
        requires
            old(self).wf(),
        ensures
            final(self).wf(),
            final(self).view() == old(self).view().insert(key@, value),
    {
        let ghost k = key@;
        let ghost new_contents = self.contents@.insert(k, value);
        match self.find(&key) {
            Some(i) => {
                let ghost old_items = self.items@;
                self.items.set(i, (key, value));
                self.contents = Ghost(new_contents);
                assert forall|a: int| 0 <= a < self.items@.len() implies {
                    &&& #[trigger] self.contents@.contains_key(self.items@[a].0@)
                    &&& self.contents@[self.items@[a].0@] == self.items@[a].1
                } by {
                    if a != i {
                        assert(old_items[a].0@ != old_items[i as int].0@);
                        assert(old(self).contents@.contains_key(old_items[a].0@));
                    }
                }
                assert forall|a: int, b: int|
                    0 <= a < self.items@.len() && 0 <= b < self.items@.len() && a != b
                    implies #[trigger] self.items@[a].0@ != #[trigger] self.items@[b].0@ by {
                    assert(old_items[a].0@ != old_items[b].0@);
                }
                assert forall|kk: Seq<char>| #[trigger] self.contents@.contains_key(kk) implies
                    exists|j: int| 0 <= j < self.items@.len() && #[trigger] self.items@[j].0@ == kk by {
                    if kk == k {
                        assert(self.items@[i as int].0@ == kk);
                    } else {
                        assert(old(self).contents@.contains_key(kk));
                        let j = choose|j: int| 0 <= j < old(self).items@.len() && #[trigger] old(self).items@[j].0@ == kk;
                        assert(self.items@[j].0@ == kk);
                    }
                }
            },
            None => {
                let ghost old_items = self.items@;
                assert forall|a: int| 0 <= a < old_items.len() implies
                    #[trigger] old_items[a].0@ != k by {
                    assert(old(self).contents@.contains_key(old_items[a].0@));
                }
                self.items.push((key, value));
                self.contents = Ghost(new_contents);
                assert forall|a: int| 0 <= a < self.items@.len() implies {
                    &&& #[trigger] self.contents@.contains_key(self.items@[a].0@)
                    &&& self.contents@[self.items@[a].0@] == self.items@[a].1
                } by {
                    if a < old_items.len() {
                        assert(self.items@[a] == old_items[a]);
                        assert(old(self).contents@.contains_key(old_items[a].0@));
                    }
                }
                assert forall|a: int, b: int|
                    0 <= a < self.items@.len() && 0 <= b < self.items@.len() && a != b
                    implies #[trigger] self.items@[a].0@ != #[trigger] self.items@[b].0@ by {
                    if a < old_items.len() && b < old_items.len() {
                        assert(old_items[a].0@ != old_items[b].0@);
                    } else if a < old_items.len() {
                        assert(old_items[a].0@ != k);
                    } else {
                        assert(old_items[b].0@ != k);
                    }
                }
                assert forall|kk: Seq<char>| #[trigger] self.contents@.contains_key(kk) implies
                    exists|j: int| 0 <= j < self.items@.len() && #[trigger] self.items@[j].0@ == kk by {
                    if kk == k {
                        assert(self.items@[self.items@.len() - 1].0@ == kk);
                    } else {
                        assert(old(self).contents@.contains_key(kk));
                        let j = choose|j: int| 0 <= j < old(self).items@.len() && #[trigger] old(self).items@[j].0@ == kk;
                        assert(self.items@[j].0@ == kk);
                    }
                }
            },
        }
    }
}

} // verus!

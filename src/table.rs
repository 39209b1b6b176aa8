//! A small keyed table with string keys, the building block of the store.

use vstd::prelude::*;

verus! {

/// Values of type `V` under distinct string keys.
///
/// Keys and values sit in two parallel vectors; `contents` records the map
/// that they describe.
pub struct Table<V> {
    keys: Vec<String>,
    vals: Vec<V>,
    contents: Ghost<Map<Seq<char>, V>>,
}

impl<V> View for Table<V> {
    type V = Map<Seq<char>, V>;

    closed spec fn view(&self) -> Map<Seq<char>, V> {
        self.contents@
    }
}

impl<V> Table<V> {
    /// The vectors describe exactly the recorded map, each key once.
    pub closed spec fn wf(&self) -> bool {
        &&& self.keys.len() == self.vals.len()
        &&& forall|i: int, j: int|
            0 <= i < j < self.keys.len() ==> #[trigger] self.keys[i]@ != #[trigger] self.keys[j]@
        &&& forall|i: int|
            0 <= i < self.keys.len() ==> self.contents@.contains_key(#[trigger] self.keys[i]@)
                && self.contents@[self.keys[i]@] == self.vals[i]
        &&& forall|k: Seq<char>|
            #[trigger] self.contents@.contains_key(k) ==> exists|i: int|
                0 <= i < self.keys.len() && #[trigger] self.keys[i]@ == k
    }

    pub fn new() -> (r: Self)
        ensures
            r.wf(),
            r@ == Map::<Seq<char>, V>::empty(),
    {
        Table { keys: Vec::new(), vals: Vec::new(), contents: Ghost(Map::empty()) }
    }

    fn position(&self, key: &String) -> (r: Option<usize>)
        requires
            self.wf(),
        ensures
            match r {
                Some(i) => i < self.keys.len() && self.keys[i as int]@ == key@,
                None => !self@.contains_key(key@),
            },
    {
        let mut i: usize = 0;
        while i < self.keys.len()
            invariant
                self.wf(),
                i <= self.keys.len(),
                forall|j: int| 0 <= j < i ==> self.keys[j]@ != key@,
            decreases self.keys.len() - i,
        {
            if self.keys[i] == *key {
                return Some(i);
            }
            i = i + 1;
        }
        None
    }

    /// The value under `key`, if there is one.
    pub fn get(&self, key: &String) -> (r: Option<&V>)
        requires
            self.wf(),
        ensures
            match r {
                Some(v) => self@.contains_key(key@) && *v == self@[key@],
                None => !self@.contains_key(key@),
            },
    {
        match self.position(key) {
            Some(i) => Some(&self.vals[i]),
            None => None,
        }
    }

    /// Puts `val` under `key`, replacing what was there.
    pub fn insert(&mut self, key: String, val: V)
        requires
            old(self).wf(),
        ensures
            final(self).wf(),
            final(self)@ == old(self)@.insert(key@, val),
    {
        let ghost k = key@;
        let ghost m = self.contents@.insert(k, val);
        match self.position(&key) {
            Some(i) => {
                self.vals.set(i, val);
                self.contents = Ghost(m);
                assert forall|k2: Seq<char>| #[trigger] self.contents@.contains_key(k2) implies exists|j: int|
                    0 <= j < self.keys.len() && #[trigger] self.keys[j]@ == k2 by {
                    if k2 != k {
                        assert(old(self).contents@.contains_key(k2));
                    } else {
                        assert(self.keys[i as int]@ == k2);
                    }
                }
            },
            None => {
                self.keys.push(key);
                self.vals.push(val);
                self.contents = Ghost(m);
                let n = self.keys.len() - 1;
                assert(self.keys[n as int]@ == k);
                assert forall|k2: Seq<char>| #[trigger] self.contents@.contains_key(k2) implies exists|j: int|
                    0 <= j < self.keys.len() && #[trigger] self.keys[j]@ == k2 by {
                    if k2 != k {
                        assert(old(self).contents@.contains_key(k2));
                        let j0 = choose|j: int| 0 <= j < old(self).keys.len() && #[trigger] old(self).keys[j]@ == k2;
                        assert(self.keys[j0]@ == k2);
                    } else {
                        assert(self.keys[n as int]@ == k2);
                    }
                }
            },
        }
    }

    /// Drops the value under `key`, if there is one.
    pub fn remove(&mut self, key: &String)
        requires
            old(self).wf(),
        ensures
            final(self).wf(),
            final(self)@ == old(self)@.remove(key@),
    {
        let ghost k = key@;
        let ghost m = self.contents@.remove(k);
        match self.position(key) {
            Some(i) => {
                let ghost n = self.keys.len() - 1;
                let ghost old_keys = self.keys@;
                let ghost old_vals = self.vals@;
                self.keys.swap_remove(i);
                self.vals.swap_remove(i);
                self.contents = Ghost(m);
                assert forall|a: int, b: int| 0 <= a < b < self.keys.len() implies #[trigger] self.keys[a]@ != #[trigger] self.keys[b]@ by {
                    let oa = if a == i { n } else { a };
                    let ob = if b == i { n } else { b };
                    assert(self.keys[a] == old_keys[oa]);
                    assert(self.keys[b] == old_keys[ob]);
                }
                assert forall|j: int| 0 <= j < self.keys.len() implies self.contents@.contains_key(#[trigger] self.keys[j]@)
                    && self.contents@[self.keys[j]@] == self.vals[j] by {
                    let oj = if j == i { n } else { j };
                    assert(self.keys[j] == old_keys[oj]);
                    assert(self.vals[j] == old_vals[oj]);
                    assert(old_keys[oj]@ != k);
                }
                assert forall|k2: Seq<char>| #[trigger] self.contents@.contains_key(k2) implies exists|j: int|
                    0 <= j < self.keys.len() && #[trigger] self.keys[j]@ == k2 by {
                    assert(old(self).contents@.contains_key(k2));
                    let j0 = choose|j: int| 0 <= j < old_keys.len() && #[trigger] old_keys[j]@ == k2;
                    if j0 == n {
                        assert(self.keys[i as int] == old_keys[n]);
                    } else {
                        assert(j0 != i);
                        assert(self.keys[j0] == old_keys[j0]);
                    }
                }
            },
            None => {
                assert(m =~= self.contents@);
            },
        }
    }

    /// The keys present, each once.
    pub fn key_list(&self) -> (r: Vec<String>)
        requires
            self.wf(),
        ensures
            forall|i: int| 0 <= i < r.len() ==> self@.contains_key(#[trigger] r@[i]@),
            forall|k: Seq<char>| #[trigger] self@.contains_key(k) ==> exists|i: int| 0 <= i < r.len() && #[trigger] r@[i]@ == k,
            forall|i: int, j: int| 0 <= i < j < r.len() ==> #[trigger] r@[i]@ != #[trigger] r@[j]@,
    {
        let mut r: Vec<String> = Vec::new();
        let mut i: usize = 0;
        while i < self.keys.len()
            invariant
                self.wf(),
                i <= self.keys.len(),
                r.len() == i,
                forall|j: int| 0 <= j < i ==> r@[j] == self.keys@[j],
            decreases self.keys.len() - i,
        {
            r.push(self.keys[i].clone());
            i = i + 1;
        }
        assert forall|k: Seq<char>| #[trigger] self@.contains_key(k) implies exists|j: int| 0 <= j < r.len() && #[trigger] r@[j]@ == k by {
            let j0 = choose|j: int| 0 <= j < self.keys.len() && #[trigger] self.keys[j]@ == k;
            assert(r@[j0] == self.keys@[j0]);
        }
        assert forall|a: int, b: int| 0 <= a < b < r.len() implies #[trigger] r@[a]@ != #[trigger] r@[b]@ by {
            assert(r@[a] == self.keys@[a]);
            assert(r@[b] == self.keys@[b]);
        }
        r
    }
}

} // verus!

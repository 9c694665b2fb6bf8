//! Keys of the keyboard and sets of them.
use vstd::prelude::*;

verus! {

/// A key of the keyboard: the ones the game reads, and any other by a code
/// of its own.
#[derive(Clone, Copy, Debug, PartialEq, Eq, Structural)]
pub enum Key {
    KeyA,
    KeyD,
    ArrowLeft,
    ArrowRight,
    Space,
    Other(u32),
}

/// A set of keys.
#[derive(Debug)]
pub struct KeySet {
    keys: Vec<Key>,
}

impl View for KeySet {
    type V = Set<Key>;

    closed spec fn view(&self) -> Set<Key> {
        Set::new(|k: Key| self.keys@.contains(k))
    }
}

/// `s` with `k` added when it is missing and removed when it is there.
pub open spec fn toggled(s: Set<Key>, k: Key) -> Set<Key> {
    if s.contains(k) { s.remove(k) } else { s.insert(k) }
}

impl KeySet {
    /// The empty set.
    pub fn new() -> (s: KeySet)
        ensures
            s@ == Set::<Key>::empty(),
    {
        let s = KeySet { keys: Vec::new() };
        assert(s@ =~= Set::<Key>::empty());
        s
    }

    /// Whether `k` is in the set.
    pub fn contains(&self, k: &Key) -> (r: bool)
        ensures
            r == self@.contains(*k),
    {
        let mut i: usize = 0;
        while i < self.keys.len()
            invariant
                0 <= i <= self.keys.len(),
                forall|j: int| 0 <= j < i ==> self.keys@[j] != *k,
            decreases self.keys.len() - i,
        {
            if self.keys[i] == *k {
                assert(self.keys@.contains(*k));
                return true;
            }
            i = i + 1;
        }
        false
    }

    /// Adds `k` to the set.
    pub fn insert(&mut self, k: Key)
        ensures
            final(self)@ == old(self)@.insert(k),
    {
        if !self.contains(&k) {
            self.keys.push(k);
        }
        assert(self@ =~= old(self)@.insert(k)) by {
            assert forall|x: Key| self.keys@.contains(x) <==> (old(self).keys@.contains(x) || x == k) by {
                if x == k && !old(self).keys@.contains(x) {
                    assert(self.keys@[self.keys@.len() - 1] == k);
                }
                if old(self).keys@.contains(x) {
                    let j = choose|j: int| 0 <= j < old(self).keys@.len() && old(self).keys@[j] == x;
                    assert(self.keys@[j] == x);
                }
            }
        }
    }

    /// Takes `k` out of the set.
    pub fn remove(&mut self, k: &Key)
        ensures
            final(self)@ == old(self)@.remove(*k),
    {
        let mut kept: Vec<Key> = Vec::new();
        let mut i: usize = 0;
        while i < self.keys.len()
            invariant
                0 <= i <= self.keys.len(),
                forall|x: Key| kept@.contains(x) <==> (x != *k && exists|j: int| 0 <= j < i && self.keys@[j] == x),
            decreases self.keys.len() - i,
        {
            let x = self.keys[i];
            let ghost prev = kept@;
            if x != *k {
                kept.push(x);
            }
            proof {
                assert(x != *k ==> kept@ == prev.push(x));
                assert(x == *k ==> kept@ == prev);
                assert forall|y: Key| kept@.contains(y) <==> (y != *k && exists|j: int| 0 <= j < i + 1 && self.keys@[j] == y) by {
                    if y != *k && exists|j: int| 0 <= j < i + 1 && self.keys@[j] == y {
                        let j = choose|j: int| 0 <= j < i + 1 && self.keys@[j] == y;
                        if j == i {
                            assert(kept@[kept@.len() - 1] == y);
                        } else {
                            assert(prev.contains(y));
                            let m = choose|m: int| 0 <= m < prev.len() && prev[m] == y;
                            assert(kept@[m] == y);
                        }
                    }
                    if kept@.contains(y) {
                        let m = choose|m: int| 0 <= m < kept@.len() && kept@[m] == y;
                        if x != *k && m == kept@.len() - 1 {
                            assert(self.keys@[i as int] == y);
                        } else {
                            assert(prev[m] == y);
                            assert(prev.contains(y));
                            let j = choose|j: int| 0 <= j < i && self.keys@[j] == y;
                            assert(self.keys@[j] == y);
                        }
                    }
                }
            }
            i = i + 1;
        }
        self.keys = kept;
    }
}

} // verus!

use vstd::prelude::*;
use crate::keys::{BlockableKey, KEY_COUNT};

verus! {

/// A set of blockable shortcuts, one membership flag per shortcut.
#[derive(Debug, Clone, Copy)]
pub struct KeySet {
    flags: [bool; 10],
}

impl View for KeySet {
    type V = Set<BlockableKey>;

    closed spec fn view(&self) -> Set<BlockableKey> {
        Set::new(|k: BlockableKey| self.flags@[k.spec_index() as int])
    }
}

/// Every blockable shortcut.
pub open spec fn all_keys() -> Set<BlockableKey> {
    Set::full()
}

impl KeySet {
    /// The empty set.
    pub fn new() -> (s: KeySet)
        ensures
            s@ == Set::<BlockableKey>::empty(),
    {
        let s = KeySet {
            flags: [false, false, false, false, false, false, false, false, false, false],
        };
        assert(s@ =~= Set::<BlockableKey>::empty());
        s
    }

    /// The set of every blockable shortcut.
    pub fn full() -> (s: KeySet)
        ensures
            s@ == all_keys(),
    {
        let s = KeySet {
            flags: [true, true, true, true, true, true, true, true, true, true],
        };
        assert(s@ =~= all_keys());
        s
    }

    /// Whether `k` is in the set.
    pub fn contains(&self, k: BlockableKey) -> (r: bool)
        ensures
            r == self@.contains(k),
    {
        self.flags[k.index()]
    }

    /// Adds `k` to the set.
    pub fn insert(&mut self, k: BlockableKey)
        ensures
            final(self)@ == old(self)@.insert(k),
    {
        let i = k.index();
        self.flags[i] = true;
        proof {
            assert forall|j: BlockableKey| #[trigger] final(self)@.contains(j) == old(self)@.insert(k).contains(j) by {
                if j.spec_index() == k.spec_index() {
                    assert(j == k);
                }
            }
            assert(final(self)@ =~= old(self)@.insert(k));
        }
    }

    /// Whether the set has no member.
    pub fn is_empty(&self) -> (r: bool)
        ensures
            r == (self@ == Set::<BlockableKey>::empty()),
    {
        let mut i: usize = 0;
        while i < KEY_COUNT
            invariant
                i <= KEY_COUNT,
                forall|j: int| 0 <= j < i ==> !self.flags@[j],
            decreases KEY_COUNT - i,
        {
            if self.flags[i] {
                let k = BlockableKey::from_index(i);
                assert(self@.contains(k));
                return false;
            }
            i = i + 1;
        }
        assert(self@ =~= Set::<BlockableKey>::empty());
        true
    }

    /// The members in declaration order, each once.
    pub fn to_vec(&self) -> (v: Vec<BlockableKey>)
        ensures
            v@.to_set() == self@,
            v@.no_duplicates(),
            forall|a: int, b: int| 0 <= a < b < v@.len() ==> v@[a].spec_index() < v@[b].spec_index(),
    {
        let mut v: Vec<BlockableKey> = Vec::new();
        let mut i: usize = 0;
        while i < KEY_COUNT
            invariant
                i <= KEY_COUNT,
                forall|j: int| 0 <= j < v@.len() ==> (#[trigger] v@[j]).spec_index() < i,
                forall|a: int, b: int| 0 <= a < b < v@.len() ==> v@[a].spec_index() < v@[b].spec_index(),
                forall|k: BlockableKey| k.spec_index() < i ==> (v@.contains(k) <==> self@.contains(k)),
                forall|j: int| 0 <= j < v@.len() ==> self@.contains(#[trigger] v@[j]),
            decreases KEY_COUNT - i,
        {
            let k = BlockableKey::from_index(i);
            let ghost old_v = v@;
            if self.flags[i] {
                v.push(k);
            }
            proof {
                assert forall|k2: BlockableKey| k2.spec_index() < i + 1 implies (v@.contains(k2) <==> self@.contains(k2)) by {
                    if k2.spec_index() == i {
                        assert(k2 == k);
                        if v@.contains(k2) {
                            let j = choose|j: int| 0 <= j < v@.len() && v@[j] == k2;
                            assert(self@.contains(v@[j]));
                        }
                        if self@.contains(k2) {
                            assert(v@[v@.len() - 1] == k2);
                        }
                    } else {
                        if v@.contains(k2) {
                            let j = choose|j: int| 0 <= j < v@.len() && v@[j] == k2;
                            assert(self@.contains(v@[j]));
                        }
                        if self@.contains(k2) {
                            assert(old_v.contains(k2));
                            let j = choose|j: int| 0 <= j < old_v.len() && old_v[j] == k2;
                            assert(v@[j] == k2);
                        }
                    }
                }
            }
            i = i + 1;
        }
        proof {
            assert forall|k: BlockableKey| #[trigger] v@.to_set().contains(k) == self@.contains(k) by {
                assert(k.spec_index() < 10);
            }
            assert(v@.to_set() =~= self@);
            assert forall|a: int, b: int| 0 <= a < v@.len() && 0 <= b < v@.len() && a != b implies v@[a] != v@[b] by {
                if a < b {
                    assert(v@[a].spec_index() < v@[b].spec_index());
                } else {
                    assert(v@[b].spec_index() < v@[a].spec_index());
                }
            }
        }
        v
    }
}

} // verus!

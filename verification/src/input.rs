//! Per-tick input state: which keys are currently held.
//!
//! The host layer fills one of these at the start of a tick from its input
//! device and hands it to the paddle movement system.

use vstd::prelude::*;

verus! {

/// The set of keys held during one tick.
pub struct InputState {
    pub keys: Vec<u32>,
}

impl InputState {
    /// Whether a key is held.
    pub open spec fn spec_pressed(self, key: u32) -> bool {
        self.keys@.contains(key)
    }

    /// An input state with no key held.
    pub fn new() -> (s: InputState)
        ensures
            forall|k: u32| !s.spec_pressed(k),
    {
        InputState { keys: Vec::new() }
    }

    /// Record that a key is held.
    pub fn press(&mut self, key: u32)
        ensures
            final(self).spec_pressed(key),
            forall|k: u32| old(self).spec_pressed(k) ==> final(self).spec_pressed(k),
            forall|k: u32| k != key ==> final(self).spec_pressed(k) == old(self).spec_pressed(k),
    {
        self.keys.push(key);
        proof {
            let s0 = old(self).keys@;
            let s1 = self.keys@;
            assert(s1 == s0.push(key));
            assert(s1[s1.len() - 1] == key);
            assert forall|k: u32| s0.contains(k) implies s1.contains(k) by {
                let i = choose|i: int| 0 <= i < s0.len() && s0[i] == k;
                assert(s1[i] == k);
            }
            assert forall|k: u32| k != key && s1.contains(k) implies s0.contains(k) by {
                let i = choose|i: int| 0 <= i < s1.len() && s1[i] == k;
                assert(i < s0.len());
                assert(s0[i] == k);
            }
        }
    }

    /// Test whether a key is held.
    pub fn pressed(&self, key: u32) -> (r: bool)
        ensures
            r == self.spec_pressed(key),
    {
        let n = self.keys.len();
        let mut i: usize = 0;
        while i < n
            invariant
                n == self.keys@.len(),
                0 <= i <= n,
                forall|j: int| 0 <= j < i ==> self.keys@[j] != key,
            decreases n - i,
        {
            if self.keys[i] == key {
                return true;
            }
            i = i + 1;
        }
        false
    }
}

} // verus!

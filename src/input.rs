use vstd::prelude::*;

verus! {

/// The keys that the game binds to a command. Any other key is never
/// queried, so the windowing layer need not report it.
#[derive(Clone, Copy, Debug, PartialEq, Eq, Structural)]
pub enum Key {
    KeyW,
    KeyA,
    KeyS,
    KeyD,
    Space,
    ArrowUp,
    ArrowLeft,
    ArrowDown,
    ArrowRight,
    KeyU,
    KeyH,
    KeyJ,
    KeyK,
    Escape,
}

/// The set of keys currently held down, fed by press and release events.
pub struct Input {
    held: Vec<Key>,
}

impl View for Input {
    type V = Set<Key>;

    closed spec fn view(&self) -> Set<Key> {
        Set::new(|k: Key| self.held@.contains(k))
    }
}

impl Input {
    /// No key held.
    pub fn new() -> (r: Input)
        ensures
            r@ == Set::<Key>::empty(),
    {
        let r = Input { held: Vec::new() };
        assert(r@ =~= Set::<Key>::empty());
        r
    }

    /// Whether `key` is currently held down.
    pub fn is_pressed(&self, key: Key) -> (r: bool)
        ensures
            r == self@.contains(key),
    {
        let mut i: usize = 0;
        while i < self.held.len()
            invariant
                0 <= i <= self.held@.len(),
                forall|j: int| 0 <= j < i ==> self.held@[j] != key,
            decreases self.held@.len() - i,
        {
            if self.held[i] == key {
                return true;
            }
            i = i + 1;
        }
        false
    }

    /// Records a key event: a press adds the key to the held set, a release
    /// removes it. Repeated presses of a held key change nothing.
    pub fn handle_keyboard(&mut self, key: Key, pressed: bool)
        ensures
            final(self)@ == (if pressed {
                old(self)@.insert(key)
            } else {
                old(self)@.remove(key)
            }),
    {
        if pressed {
            if !self.is_pressed(key) {
                self.held.push(key);
                proof {
                    assert forall|k: Key|
                        self.held@.contains(k) <==> old(self).held@.contains(k) || k == key by {
                        if old(self).held@.contains(k) {
                            let n = choose|n: int|
                                0 <= n < old(self).held@.len() && old(self).held@[n] == k;
                            assert(self.held@[n] == k);
                        }
                        assert(self.held@[self.held@.len() - 1] == key);
                    }
                }
            }
            assert(self@ =~= old(self)@.insert(key));
        } else {
            let mut kept: Vec<Key> = Vec::new();
            let mut i: usize = 0;
            while i < self.held.len()
                invariant
                    0 <= i <= self.held@.len(),
                    self.held@ == old(self).held@,
                    forall|k: Key|
                        kept@.contains(k) <==> k != key && exists|j: int|
                            0 <= j < i && self.held@[j] == k,
                decreases self.held@.len() - i,
            {
                let k = self.held[i];
                let ghost before = kept@;
                if k != key {
                    kept.push(k);
                }
                proof {
                    assert forall|x: Key|
                        kept@.contains(x) <==> x != key && exists|j: int|
                            0 <= j < i + 1 && self.held@[j] == x by {
                        if x != key && self.held@[i as int] == x {
                            assert(kept@[kept@.len() - 1] == x);
                        }
                        if kept@.contains(x) && !before.contains(x) {
                            let n = choose|n: int| 0 <= n < kept@.len() && kept@[n] == x;
                            assert(n == before.len());
                        }
                        if before.contains(x) {
                            let n = choose|n: int| 0 <= n < before.len() && before[n] == x;
                            assert(kept@[n] == x);
                        }
                    }
                }
                i = i + 1;
            }
            self.held = kept;
            assert(self@ =~= old(self)@.remove(key));
        }
    }
}

} // verus!

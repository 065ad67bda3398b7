//! Which buttons are held, and which were pressed or released since the last frame.
//! A button is known here by an integer code; the keyboard and the mouse each keep one
//! tracker.
use vstd::prelude::*;

verus! {

/// Whether `code` occurs in `codes`.
fn holds(codes: &Vec<u32>, code: u32) -> (b: bool)
    ensures
        b == codes@.contains(code),
{
    let mut i: usize = 0;
    while i < codes.len()
        invariant
            i <= codes.len(),
            forall|j: int| 0 <= j < i ==> codes@[j] != code,
        decreases codes.len() - i,
    {
        if codes[i] == code {
            return true;
        }
        i = i + 1;
    }
    false
}

/// The buttons held this frame and those held at the end of the last frame.
#[derive(Debug, Clone)]
pub struct ButtonTracker {
    current: Vec<u32>,
    previous: Vec<u32>,
}

impl ButtonTracker {
    /// Each held button is listed once.
    pub closed spec fn wf(&self) -> bool {
        self.current@.no_duplicates() && self.previous@.no_duplicates()
    }

    /// The buttons held now.
    pub closed spec fn down(&self) -> Set<u32> {
        self.current@.to_set()
    }

    /// The buttons held at the end of the last frame.
    pub closed spec fn was_down(&self) -> Set<u32> {
        self.previous@.to_set()
    }

    /// No button held, now or before.
    pub fn new() -> (t: Self)
        ensures
            t.wf(),
            t.down() == Set::<u32>::empty(),
            t.was_down() == Set::<u32>::empty(),
    {
        let t = ButtonTracker { current: Vec::new(), previous: Vec::new() };
        assert(t.current@.to_set() =~= Set::<u32>::empty());
        assert(t.previous@.to_set() =~= Set::<u32>::empty());
        t
    }

    /// A button went down.
    pub fn press(&mut self, code: u32)
        requires
            old(self).wf(),
        ensures
            final(self).wf(),
            final(self).down() == old(self).down().insert(code),
            final(self).was_down() == old(self).was_down(),
    {
        if !holds(&self.current, code) {
            let ghost before = self.current@;
            self.current.push(code);
            assert(self.current@ == before.push(code));
            assert(self.current@.to_set() =~= before.to_set().insert(code)) by {
                assert forall|x: u32| self.current@.contains(x) <==> (before.contains(x) || x == code) by {
                    if self.current@.contains(x) {
                        let j = choose|j: int| 0 <= j < self.current@.len() && self.current@[j] == x;
                        if j < before.len() {
                            assert(before[j] == x);
                        }
                    }
                    if before.contains(x) {
                        let j = choose|j: int| 0 <= j < before.len() && before[j] == x;
                        assert(self.current@[j] == x);
                    }
                    if x == code {
                        assert(self.current@[before.len() as int] == x);
                    }
                }
            }
        } else {
            assert(self.current@.to_set() =~= self.current@.to_set().insert(code));
        }
    }

    /// A button went up.
    pub fn release(&mut self, code: u32)
        requires
            old(self).wf(),
        ensures
            final(self).wf(),
            final(self).down() == old(self).down().remove(code),
            final(self).was_down() == old(self).was_down(),
    {
        let mut i: usize = 0;
        while i < self.current.len()
            invariant
                i <= self.current.len(),
                self.current@ == old(self).current@,
                self.previous@ == old(self).previous@,
                old(self).wf(),
                forall|j: int| 0 <= j < i ==> self.current@[j] != code,
            decreases self.current.len() - i,
        {
            if self.current[i] == code {
                let ghost before = self.current@;
                self.current.remove(i);
                assert(self.current@ == before.remove(i as int));
                assert(self.current@.to_set() =~= before.to_set().remove(code)) by {
                    assert forall|x: u32| self.current@.contains(x) <==> (before.contains(x) && x != code) by {
                        if self.current@.contains(x) {
                            let j = choose|j: int| 0 <= j < self.current@.len() && self.current@[j] == x;
                            if j < i {
                                assert(before[j] == x);
                            } else {
                                assert(before[j + 1] == x);
                                assert(j + 1 != i);
                            }
                            assert(x != code) by {
                                if x == code {
                                    let jj = if j < i { j } else { j + 1 };
                                    assert(before[jj] == before[i as int]);
                                }
                            }
                        }
                        if before.contains(x) && x != code {
                            let j = choose|j: int| 0 <= j < before.len() && before[j] == x;
                            assert(j != i);
                            if j < i {
                                assert(self.current@[j] == x);
                            } else {
                                assert(self.current@[j - 1] == x);
                            }
                        }
                    }
                }
                assert(self.current@.no_duplicates()) by {
                    assert forall|a: int, b: int|
                        0 <= a < b < self.current@.len() implies self.current@[a] != self.current@[b] by {
                        let a0 = if a < i { a } else { a + 1 };
                        let b0 = if b < i { b } else { b + 1 };
                        assert(self.current@[a] == before[a0]);
                        assert(self.current@[b] == before[b0]);
                    }
                }
                return;
            }
            i = i + 1;
        }
        assert(!self.current@.contains(code));
        assert(self.current@.to_set() =~= self.current@.to_set().remove(code));
    }

    /// Whether the button is held now.
    pub fn is_down(&self, code: u32) -> (b: bool)
        ensures
            b == self.down().contains(code),
    {
        holds(&self.current, code)
    }

    /// Whether the button went down since the last frame.
    pub fn just_pressed(&self, code: u32) -> (b: bool)
        ensures
            b == (self.down().contains(code) && !self.was_down().contains(code)),
    {
        holds(&self.current, code) && !holds(&self.previous, code)
    }

    /// Whether the button went up since the last frame.
    pub fn just_released(&self, code: u32) -> (b: bool)
        ensures
            b == (!self.down().contains(code) && self.was_down().contains(code)),
    {
        !holds(&self.current, code) && holds(&self.previous, code)
    }

    /// Ends the frame: what is held now is what was held before the next one.
    pub fn update(&mut self)
        requires
            old(self).wf(),
        ensures
            final(self).wf(),
            final(self).down() == old(self).down(),
            final(self).was_down() == old(self).down(),
    {
        let c = self.current.clone();
        assert(c@ =~= self.current@);
        self.previous = c;
    }
}

/// A press is seen as a press only in the frame it happens, and a release likewise:
/// once the frame ends no button is just pressed or just released.
pub proof fn lemma_edges_last_one_frame(before: ButtonTracker, after: ButtonTracker, code: u32)
    requires
        after.down() == before.down(),
        after.was_down() == before.down(),
    ensures
        !(after.down().contains(code) && !after.was_down().contains(code)),
        !(!after.down().contains(code) && after.was_down().contains(code)),
{
}

} // verus!

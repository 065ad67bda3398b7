//! When a character's ranged attack releases its projectile.
use vstd::prelude::*;

verus! {

/// Remembers whether the character fired on the previous tick, so that a projectile
/// frame that lasts several ticks fires only once.
pub struct ProjectileController {
    pub just_shot: bool,
}

/// Whether a projectile is released: the attack is on its projectile frame and did
/// not fire on the previous tick.
pub open spec fn spec_should_spawn(just_shot: bool, on_projectile_frame: bool) -> bool {
    on_projectile_frame && !just_shot
}

impl ProjectileController {
    /// A controller that has not fired.
    pub fn new() -> (c: Self)
        ensures
            !c.just_shot,
    {
        Self { just_shot: false }
    }

    /// Records whether the attack is on its projectile frame this tick and returns
    /// whether a projectile is to be spawned.
    pub fn observe_frame(&mut self, on_projectile_frame: bool) -> (spawn: bool)
        ensures
            spawn == spec_should_spawn(old(self).just_shot, on_projectile_frame),
            final(self).just_shot == on_projectile_frame,
    {
        let should_spawn = on_projectile_frame && !self.just_shot;
        self.just_shot = on_projectile_frame;
        should_spawn
    }
}

/// Two ticks in a row never both release a projectile.
pub proof fn lemma_no_double_shot(just_shot: bool, first: bool, second: bool)
    ensures
        !(spec_should_spawn(just_shot, first) && spec_should_spawn(first, second)),
{
}

/// A projectile frame that follows a tick off the frame always fires.
pub proof fn lemma_fires_on_entering_frame(just_shot: bool)
    ensures
        spec_should_spawn(false, true),
        !spec_should_spawn(just_shot, false),
{
}

} // verus!

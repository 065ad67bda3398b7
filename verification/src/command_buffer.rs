//! Commands that the game's systems queue for later systems to carry out.
use crate::enums_types::{AnimationType, CombatState};
use vstd::prelude::*;

verus! {

/// Why an impulse is applied; decides which impulse wins when two meet.
#[derive(Debug, Clone, Copy, PartialEq, Eq, Structural)]
pub enum ImpulseKind {
    /// run / jump steering
    Locomotion,
    /// roll, dash, attack lunge
    Action,
    /// knockback, flinch
    HitReaction,
    /// explosion, wind
    World,
}

impl ImpulseKind {
    /// Whether an impulse of kind `self` takes precedence over one of kind `other`:
    /// world impulses override everything, and actions override hit reactions.
    pub open spec fn spec_cancels(self, other: Self) -> bool {
        (self is Action && other is HitReaction) || self is World
    }

    /// Whether an impulse of this kind cancels one of kind `other`.
    pub fn cancels(self, other: Self) -> (r: bool)
        ensures
            r == self.spec_cancels(other),
    {
        matches!((self, other), (ImpulseKind::Action, ImpulseKind::HitReaction) | (ImpulseKind::World, _))
    }
}

/// Two different kinds never cancel each other both ways: precedence is one-sided.
pub proof fn lemma_cancels_one_sided(a: ImpulseKind, b: ImpulseKind)
    requires
        a != b,
    ensures
        !(a.spec_cancels(b) && b.spec_cancels(a)),
{
}

/// Only world impulses override locomotion, and a world impulse is overridden by
/// nothing but another world impulse.
pub proof fn lemma_cancels_locomotion_and_world(k: ImpulseKind)
    ensures
        k.spec_cancels(ImpulseKind::Locomotion) <==> k is World,
        k.spec_cancels(ImpulseKind::World) <==> k is World,
{
}

/// What to do to an entity's animator.
#[derive(Clone, Debug)]
pub enum AnimOp {
    SetNextAnimation(AnimationType),
    SetCurrentAnimation(AnimationType),
    DoHold(AnimationType),
    StopHold(AnimationType),
    SetAnimFromString(String),
    ResetAttacks,
}

/// An animation command for `target`, optionally tied to the weapon it holds.
#[derive(Clone, Debug)]
pub struct AnimCmd {
    pub target: usize,
    pub weapon: Option<usize>,
    pub op: AnimOp,
}

/// A request that an entity enter a combat state.
#[derive(Clone, Debug)]
pub struct CombCmd {
    pub entity_id: usize,
    pub requested_state: CombatState,
}

/// The queues of animation and combat commands built up during a tick.
#[derive(Debug)]
pub struct CommandBuffer {
    pub anim: Vec<AnimCmd>,
    pub combat: Vec<CombCmd>,
}

impl CommandBuffer {
    /// Empty queues.
    pub fn new() -> (cb: Self)
        ensures
            cb.anim@ == Seq::<AnimCmd>::empty(),
            cb.combat@ == Seq::<CombCmd>::empty(),
    {
        CommandBuffer { anim: Vec::new(), combat: Vec::new() }
    }

    /// Queues a request to blend into `anim` next.
    pub fn next_anim(&mut self, target: usize, anim: AnimationType, weapon: Option<usize>)
        ensures
            final(self).anim@ == old(self).anim@.push(
                AnimCmd { target, weapon, op: AnimOp::SetNextAnimation(anim) },
            ),
            final(self).combat@ == old(self).combat@,
    {
        self.anim.push(AnimCmd { target, weapon, op: AnimOp::SetNextAnimation(anim) });
    }

    /// Queues a request to blend into the animation named `anim_lookup`.
    pub fn next_anim_from_lookup(&mut self, target: usize, anim_lookup: String, weapon: Option<usize>)
        ensures
            final(self).anim@ == old(self).anim@.push(
                AnimCmd { target, weapon, op: AnimOp::SetAnimFromString(anim_lookup) },
            ),
            final(self).combat@ == old(self).combat@,
    {
        self.anim.push(AnimCmd { target, weapon, op: AnimOp::SetAnimFromString(anim_lookup) });
    }

    /// Queues a request to switch to `anim` at once.
    pub fn current_anim(&mut self, target: usize, anim: AnimationType, weapon: Option<usize>)
        ensures
            final(self).anim@ == old(self).anim@.push(
                AnimCmd { target, weapon, op: AnimOp::SetCurrentAnimation(anim) },
            ),
            final(self).combat@ == old(self).combat@,
    {
        self.anim.push(AnimCmd { target, weapon, op: AnimOp::SetCurrentAnimation(anim) });
    }

    /// Queues a request to start (`do_hold`) or stop holding `anim` on its hold frame.
    pub fn set_anim_hold(&mut self, target: usize, anim: AnimationType, do_hold: bool, weapon: Option<usize>)
        ensures
            final(self).anim@ == old(self).anim@.push(
                AnimCmd {
                    target,
                    weapon,
                    op: if do_hold {
                        AnimOp::DoHold(anim)
                    } else {
                        AnimOp::StopHold(anim)
                    },
                },
            ),
            final(self).combat@ == old(self).combat@,
    {
        match do_hold {
            true => {
                self.anim.push(AnimCmd { target, weapon, op: AnimOp::DoHold(anim) });
            },
            false => {
                self.anim.push(AnimCmd { target, weapon, op: AnimOp::StopHold(anim) });
            },
        }
    }

    /// Queues a request to reset the attack chain of `target`.
    pub fn reset_attacks(&mut self, target: usize, weapon: Option<usize>)
        ensures
            final(self).anim@ == old(self).anim@.push(
                AnimCmd { target, weapon, op: AnimOp::ResetAttacks },
            ),
            final(self).combat@ == old(self).combat@,
    {
        self.anim.push(AnimCmd { target, weapon, op: AnimOp::ResetAttacks });
    }
}

} // verus!

//! The per-tick decisions of the enemy and player state machines.
//!
//! Each machine is a function from the current state and the facts observed this tick
//! to the next state and the effects to carry out. Observing the facts (reading
//! clocks, velocities, contacts and input devices) and carrying out the effects
//! (driving the animator, the physics bodies, sounds and particles) is left to the
//! caller.
use crate::enums_types::{AnimationType, ControlState, SoundType};
use vstd::prelude::*;

verus! {

/// Whether a controller in this control state may move on its own.
pub fn can_loco(control_state: ControlState) -> (b: bool)
    ensures
        b <==> control_state is Player,
{
    control_state != ControlState::Locked && control_state != ControlState::Combat
}

/// The states of a simulated (non-player) character.
#[derive(Debug, Clone, Copy, PartialEq, Eq, Structural)]
pub enum SimState {
    Init,
    Waiting,
    Aggro,
    Combat,
    Flinching,
    Dying,
    Dead,
    Dancing,
    Blocking,
}

/// Where a character is in its attack chain.
#[derive(Debug, Clone, Copy, PartialEq, Eq, Structural)]
pub enum AttackState {
    Attack1,
    Attack2,
    Attack3,
}

/// What happens to the time a controller has spent in its state.
#[derive(Debug, Clone, Copy, PartialEq, Eq, Structural)]
pub enum TimeUpdate {
    /// left as it was
    Keep,
    /// increased by the tick's duration
    Advance,
    /// set back to zero
    Reset,
}

/// An instruction for the character's animator.
#[derive(Debug, Clone, Copy, PartialEq, Eq, Structural)]
pub enum AnimatorAction {
    /// blend into this clip next
    SetNext(AnimationType),
    /// set this clip's playback time back to zero
    RestartClip(AnimationType),
    /// hold (or stop holding) the current clip on its hold frame
    SetHold(bool),
}

/// Where a character heads.
#[derive(Debug, Clone, Copy, PartialEq, Eq, Structural)]
pub enum Destination {
    Keep,
    OwnPosition,
    PlayerPosition,
}

/// What is known this tick about one attack clip of an animator.
#[derive(Debug, Clone, Copy, PartialEq, Eq, Structural)]
pub struct ClipFacts {
    /// its playback time has reached its end
    pub finished: bool,
    /// it would count as having reached its end even with its playback time at zero
    pub finished_from_start: bool,
    /// the animation segment it is on
    pub segment: u32,
}

/// What an enemy observes this tick.
#[derive(Debug, Clone, Copy, PartialEq, Eq, Structural)]
pub struct EnemyFacts {
    /// its health is at or below zero
    pub health_depleted: bool,
    /// it is of the dancing kind, which dances forever
    pub is_moose_man: bool,
    /// a knockback with a pending flinch is active on it
    pub flinch_pending: bool,
    /// the player is in its field of view and within its aggro range
    pub can_see_player: bool,
    /// the player is within its aggro range
    pub within_aggro_range: bool,
    /// the player is within reach of its weapon
    pub within_weapon_length: bool,
    /// its time in state, advanced by this tick, has reached the length of its current clip
    pub flinch_time_elapsed: bool,
    /// its time in state, advanced by this tick, has reached the dying time
    pub dying_time_elapsed: bool,
    /// the clip its animator is currently playing
    pub current_animation: AnimationType,
    /// its animator has both attack clips
    pub has_attack_clips: bool,
    /// its animator has the idle clip
    pub has_idle_clip: bool,
    /// it holds a weapon in its right hand
    pub holds_weapon: bool,
    /// the first attack clip
    pub slash: ClipFacts,
    /// the second attack clip
    pub slash2: ClipFacts,
}

/// The decision of one enemy tick, as a mathematical value.
pub ghost struct EnemyPlan {
    pub state: SimState,
    pub attack_state: AttackState,
    pub time: TimeUpdate,
    pub animator: Seq<AnimatorAction>,
    pub destination: Destination,
    pub clear_flinch: bool,
    pub enable_rotations: bool,
    pub drop_weapon: bool,
    pub despawn: bool,
}

/// The decision of one enemy tick.
#[derive(Debug)]
pub struct EnemyStep {
    pub state: SimState,
    pub attack_state: AttackState,
    pub time: TimeUpdate,
    /// animator instructions, to be carried out in order
    pub animator: Vec<AnimatorAction>,
    pub destination: Destination,
    /// the pending flinch has been consumed
    pub clear_flinch: bool,
    /// let the physics body rotate freely
    pub enable_rotations: bool,
    /// let go of the held weapon
    pub drop_weapon: bool,
    /// burst into particles and remove the character and its hitbox
    pub despawn: bool,
}

impl View for EnemyStep {
    type V = EnemyPlan;

    open spec fn view(&self) -> EnemyPlan {
        EnemyPlan {
            state: self.state,
            attack_state: self.attack_state,
            time: self.time,
            animator: self.animator@,
            destination: self.destination,
            clear_flinch: self.clear_flinch,
            enable_rotations: self.enable_rotations,
            drop_weapon: self.drop_weapon,
            despawn: self.despawn,
        }
    }
}

/// The clip a character plays on entering a state.
pub open spec fn anim_for_sim_state(s: SimState) -> AnimationType {
    match s {
        SimState::Init => AnimationType::Idle,
        SimState::Waiting => AnimationType::Idle,
        SimState::Aggro => AnimationType::Run,
        SimState::Dying => AnimationType::Idle,
        SimState::Dead => AnimationType::Idle,
        SimState::Combat => AnimationType::Slash,
        SimState::Flinching => AnimationType::Flinch,
        SimState::Dancing => AnimationType::Dance,
        SimState::Blocking => AnimationType::Block,
    }
}

/// The clip of a step of the attack chain; the third step has none.
pub open spec fn anim_for_attack_state(a: AttackState) -> AnimationType {
    match a {
        AttackState::Attack2 => AnimationType::Slash2,
        _ => AnimationType::Slash,
    }
}

/// A plan that changes nothing.
pub open spec fn enemy_idle_plan(state: SimState, attack: AttackState) -> EnemyPlan {
    EnemyPlan {
        state,
        attack_state: attack,
        time: TimeUpdate::Keep,
        animator: Seq::empty(),
        destination: Destination::Keep,
        clear_flinch: false,
        enable_rotations: false,
        drop_weapon: false,
        despawn: false,
    }
}

/// Entering state `next` outside the attack chain: the time and the attack chain start
/// over and the state's clip is requested, after the animator instructions `before`.
pub open spec fn enemy_enter(next: SimState, before: Seq<AnimatorAction>) -> EnemyPlan {
    EnemyPlan {
        state: next,
        attack_state: AttackState::Attack1,
        time: TimeUpdate::Reset,
        animator: before.push(AnimatorAction::SetNext(anim_for_sim_state(next))),
        destination: Destination::Keep,
        clear_flinch: false,
        enable_rotations: false,
        drop_weapon: false,
        despawn: false,
    }
}

/// A pending flinch interrupts whatever the enemy was doing and restarts its attack chain.
pub open spec fn enemy_flinch_plan() -> EnemyPlan {
    EnemyPlan {
        state: SimState::Flinching,
        attack_state: AttackState::Attack1,
        time: TimeUpdate::Reset,
        animator: seq![
            AnimatorAction::SetNext(AnimationType::Flinch),
            AnimatorAction::RestartClip(AnimationType::Slash),
            AnimatorAction::RestartClip(AnimationType::Slash2),
        ],
        destination: Destination::Keep,
        clear_flinch: true,
        enable_rotations: false,
        drop_weapon: false,
        despawn: false,
    }
}

/// The attack clip that is not playing is rewound while the other one plays.
pub open spec fn combat_rewinds(current: AnimationType) -> Seq<AnimatorAction> {
    if current == AnimationType::Slash {
        seq![AnimatorAction::RestartClip(AnimationType::Slash2)]
    } else if current == AnimationType::Slash2 {
        seq![AnimatorAction::RestartClip(AnimationType::Slash)]
    } else {
        Seq::empty()
    }
}

/// Whether the first attack clip has reached its end, after the rewinds of this tick.
pub open spec fn slash_done(f: EnemyFacts) -> bool {
    if f.current_animation == AnimationType::Slash2 {
        f.slash.finished_from_start
    } else {
        f.slash.finished
    }
}

/// Whether the second attack clip has reached its end, after the rewinds of this tick.
pub open spec fn slash2_done(f: EnemyFacts) -> bool {
    if f.current_animation == AnimationType::Slash {
        f.slash2.finished_from_start
    } else {
        f.slash2.finished
    }
}

/// Moving to step `next` of the attack chain while staying in combat.
pub open spec fn enemy_chain(next: AttackState, before: Seq<AnimatorAction>) -> EnemyPlan {
    EnemyPlan {
        state: SimState::Combat,
        attack_state: next,
        time: TimeUpdate::Reset,
        animator: before.push(AnimatorAction::SetNext(anim_for_attack_state(next))),
        destination: Destination::PlayerPosition,
        clear_flinch: false,
        enable_rotations: false,
        drop_weapon: false,
        despawn: false,
    }
}

/// The attack chain of an enemy in combat, with the player within reach or not.
pub open spec fn enemy_combat_plan(attack: AttackState, f: EnemyFacts) -> EnemyPlan {
    let pre = combat_rewinds(f.current_animation);
    let in_range = f.within_weapon_length;
    let stay = EnemyPlan {
        state: SimState::Combat,
        attack_state: attack,
        time: TimeUpdate::Advance,
        animator: pre,
        destination: Destination::PlayerPosition,
        clear_flinch: false,
        enable_rotations: false,
        drop_weapon: false,
        despawn: false,
    };
    let give_up = EnemyPlan { destination: Destination::PlayerPosition, ..enemy_enter(SimState::Aggro, pre) };
    match attack {
        AttackState::Attack1 => {
            if slash_done(f) {
                if in_range {
                    enemy_chain(AttackState::Attack2, pre)
                } else {
                    give_up
                }
            } else if f.slash.segment >= 16 && in_range {
                enemy_chain(AttackState::Attack2, pre)
            } else {
                stay
            }
        },
        AttackState::Attack2 => {
            if slash2_done(f) {
                if in_range {
                    enemy_chain(AttackState::Attack1, pre)
                } else {
                    give_up
                }
            } else {
                stay
            }
        },
        AttackState::Attack3 => stay,
    }
}

/// One tick of an enemy in `state` at step `attack` of its attack chain.
pub open spec fn spec_enemy_step(state: SimState, attack: AttackState, f: EnemyFacts) -> EnemyPlan {
    if f.health_depleted && !(state is Dying || state is Dead) {
        enemy_enter(SimState::Dying, Seq::empty())
    } else {
        match state {
            SimState::Init => {
                if f.is_moose_man {
                    enemy_enter(SimState::Dancing, Seq::empty())
                } else {
                    let p = enemy_enter(SimState::Waiting, Seq::empty());
                    EnemyPlan { animator: p.animator.push(AnimatorAction::RestartClip(AnimationType::Idle)), ..p }
                }
            },
            SimState::Waiting => {
                if f.flinch_pending {
                    enemy_flinch_plan()
                } else if f.can_see_player {
                    enemy_enter(SimState::Aggro, Seq::empty())
                } else {
                    EnemyPlan {
                        time: TimeUpdate::Advance,
                        destination: Destination::OwnPosition,
                        ..enemy_idle_plan(state, attack)
                    }
                }
            },
            SimState::Aggro => {
                if f.flinch_pending {
                    enemy_flinch_plan()
                } else if !f.within_aggro_range {
                    enemy_enter(SimState::Waiting, Seq::empty())
                } else if f.within_weapon_length {
                    EnemyPlan {
                        destination: Destination::PlayerPosition,
                        ..enemy_enter(SimState::Combat, Seq::empty())
                    }
                } else {
                    EnemyPlan {
                        time: TimeUpdate::Advance,
                        destination: Destination::PlayerPosition,
                        ..enemy_idle_plan(state, attack)
                    }
                }
            },
            SimState::Combat => {
                if f.flinch_pending {
                    enemy_flinch_plan()
                } else {
                    enemy_combat_plan(attack, f)
                }
            },
            SimState::Flinching => {
                if f.flinch_time_elapsed {
                    EnemyPlan {
                        destination: Destination::OwnPosition,
                        ..enemy_enter(SimState::Aggro, Seq::empty())
                    }
                } else {
                    EnemyPlan {
                        time: TimeUpdate::Advance,
                        destination: Destination::OwnPosition,
                        ..enemy_idle_plan(state, attack)
                    }
                }
            },
            SimState::Dying => {
                let p = if f.dying_time_elapsed {
                    enemy_enter(SimState::Dead, Seq::empty())
                } else {
                    EnemyPlan { time: TimeUpdate::Advance, ..enemy_idle_plan(state, attack) }
                };
                EnemyPlan { enable_rotations: true, drop_weapon: f.holds_weapon, ..p }
            },
            SimState::Dead => EnemyPlan { despawn: true, ..enemy_idle_plan(state, attack) },
            _ => enemy_idle_plan(state, attack),
        }
    }
}

/// The ticks on which the enemy machine cannot proceed: a blocking enemy, which
/// nothing leads to, and the ticks that need animation clips the animator lacks.
pub open spec fn enemy_step_refused(state: SimState, f: EnemyFacts) -> bool {
    if f.health_depleted && !(state is Dying || state is Dead) {
        false
    } else {
        match state {
            SimState::Blocking => true,
            SimState::Init => !f.is_moose_man && !f.has_idle_clip,
            SimState::Waiting | SimState::Aggro => f.flinch_pending && !f.has_attack_clips,
            SimState::Combat => !f.has_attack_clips,
            _ => false,
        }
    }
}


/// The clip a character plays on entering a state.
pub fn entry_animation(s: SimState) -> (a: AnimationType)
    ensures
        a == anim_for_sim_state(s),
{
    match s {
        SimState::Init => AnimationType::Idle,
        SimState::Waiting => AnimationType::Idle,
        SimState::Aggro => AnimationType::Run,
        SimState::Dying => AnimationType::Idle,
        SimState::Dead => AnimationType::Idle,
        SimState::Combat => AnimationType::Slash,
        SimState::Flinching => AnimationType::Flinch,
        SimState::Dancing => AnimationType::Dance,
        SimState::Blocking => AnimationType::Block,
    }
}

/// The clip of a step of the attack chain; the third step is never entered.
pub fn attack_animation(a: AttackState) -> (anim: AnimationType)
    requires
        !(a is Attack3),
    ensures
        anim == anim_for_attack_state(a),
{
    match a {
        AttackState::Attack1 => AnimationType::Slash,
        AttackState::Attack2 => AnimationType::Slash2,
        AttackState::Attack3 => AnimationType::Slash,
    }
}

fn enemy_unchanged(state: SimState, attack: AttackState) -> (r: EnemyStep)
    ensures
        r@ == enemy_idle_plan(state, attack),
{
    let r = EnemyStep {
        state,
        attack_state: attack,
        time: TimeUpdate::Keep,
        animator: Vec::new(),
        destination: Destination::Keep,
        clear_flinch: false,
        enable_rotations: false,
        drop_weapon: false,
        despawn: false,
    };
    assert(r@ =~= enemy_idle_plan(state, attack));
    r
}

fn enemy_entering(next: SimState, before: Vec<AnimatorAction>) -> (r: EnemyStep)
    ensures
        r@ == enemy_enter(next, before@),
{
    let mut animator = before;
    animator.push(AnimatorAction::SetNext(entry_animation(next)));
    EnemyStep {
        state: next,
        attack_state: AttackState::Attack1,
        time: TimeUpdate::Reset,
        animator,
        destination: Destination::Keep,
        clear_flinch: false,
        enable_rotations: false,
        drop_weapon: false,
        despawn: false,
    }
}

fn enemy_flinching() -> (r: EnemyStep)
    ensures
        r@ == enemy_flinch_plan(),
{
    let mut animator = Vec::new();
    animator.push(AnimatorAction::SetNext(AnimationType::Flinch));
    animator.push(AnimatorAction::RestartClip(AnimationType::Slash));
    animator.push(AnimatorAction::RestartClip(AnimationType::Slash2));
    let r = EnemyStep {
        state: SimState::Flinching,
        attack_state: AttackState::Attack1,
        time: TimeUpdate::Reset,
        animator,
        destination: Destination::Keep,
        clear_flinch: true,
        enable_rotations: false,
        drop_weapon: false,
        despawn: false,
    };
    assert(r@.animator =~= enemy_flinch_plan().animator);
    r
}

fn rewinds(current: AnimationType) -> (v: Vec<AnimatorAction>)
    ensures
        v@ == combat_rewinds(current),
{
    let mut v = Vec::new();
    if current == AnimationType::Slash {
        v.push(AnimatorAction::RestartClip(AnimationType::Slash2));
    } else if current == AnimationType::Slash2 {
        v.push(AnimatorAction::RestartClip(AnimationType::Slash));
    }
    assert(v@ =~= combat_rewinds(current));
    v
}

fn enemy_chaining(next: AttackState, before: Vec<AnimatorAction>) -> (r: EnemyStep)
    requires
        !(next is Attack3),
    ensures
        r@ == enemy_chain(next, before@),
{
    let mut animator = before;
    animator.push(AnimatorAction::SetNext(attack_animation(next)));
    EnemyStep {
        state: SimState::Combat,
        attack_state: next,
        time: TimeUpdate::Reset,
        animator,
        destination: Destination::PlayerPosition,
        clear_flinch: false,
        enable_rotations: false,
        drop_weapon: false,
        despawn: false,
    }
}

fn enemy_combat(attack: AttackState, f: &EnemyFacts) -> (r: EnemyStep)
    ensures
        r@ == enemy_combat_plan(attack, *f),
{
    let pre = rewinds(f.current_animation);
    let in_range = f.within_weapon_length;
    let slash_finished = if f.current_animation == AnimationType::Slash2 {
        f.slash.finished_from_start
    } else {
        f.slash.finished
    };
    let slash2_finished = if f.current_animation == AnimationType::Slash {
        f.slash2.finished_from_start
    } else {
        f.slash2.finished
    };
    let advance_only = |pre: Vec<AnimatorAction>| -> (r: EnemyStep)
        ensures
            r@ == (EnemyPlan {
                state: SimState::Combat,
                attack_state: attack,
                time: TimeUpdate::Advance,
                animator: pre@,
                destination: Destination::PlayerPosition,
                clear_flinch: false,
                enable_rotations: false,
                drop_weapon: false,
                despawn: false,
            }),
        {
            EnemyStep {
                state: SimState::Combat,
                attack_state: attack,
                time: TimeUpdate::Advance,
                animator: pre,
                destination: Destination::PlayerPosition,
                clear_flinch: false,
                enable_rotations: false,
                drop_weapon: false,
                despawn: false,
            }
        };
    match attack {
        AttackState::Attack1 => {
            if slash_finished {
                if in_range {
                    enemy_chaining(AttackState::Attack2, pre)
                } else {
                    let mut r = enemy_entering(SimState::Aggro, pre);
                    r.destination = Destination::PlayerPosition;
                    r
                }
            } else if f.slash.segment >= 16 && in_range {
                enemy_chaining(AttackState::Attack2, pre)
            } else {
                advance_only(pre)
            }
        },
        AttackState::Attack2 => {
            if slash2_finished {
                if in_range {
                    enemy_chaining(AttackState::Attack1, pre)
                } else {
                    let mut r = enemy_entering(SimState::Aggro, pre);
                    r.destination = Destination::PlayerPosition;
                    r
                }
            } else {
                advance_only(pre)
            }
        },
        AttackState::Attack3 => advance_only(pre),
    }
}

/// Decides one tick of an enemy in `state` at step `attack` of its attack chain, from
/// what it observes this tick.
pub fn enemy_step(state: SimState, attack: AttackState, f: &EnemyFacts) -> (r: EnemyStep)
    requires
        !enemy_step_refused(state, *f),
    ensures
        r@ == spec_enemy_step(state, attack, *f),
{
    if f.health_depleted && !(state == SimState::Dying || state == SimState::Dead) {
        return enemy_entering(SimState::Dying, Vec::new());
    }
    match state {
        SimState::Init => {
            if f.is_moose_man {
                enemy_entering(SimState::Dancing, Vec::new())
            } else {
                let mut r = enemy_entering(SimState::Waiting, Vec::new());
                r.animator.push(AnimatorAction::RestartClip(AnimationType::Idle));
                r
            }
        },
        SimState::Waiting => {
            if f.flinch_pending {
                enemy_flinching()
            } else if f.can_see_player {
                enemy_entering(SimState::Aggro, Vec::new())
            } else {
                let mut r = enemy_unchanged(state, attack);
                r.time = TimeUpdate::Advance;
                r.destination = Destination::OwnPosition;
                r
            }
        },
        SimState::Aggro => {
            if f.flinch_pending {
                enemy_flinching()
            } else if !f.within_aggro_range {
                enemy_entering(SimState::Waiting, Vec::new())
            } else if f.within_weapon_length {
                let mut r = enemy_entering(SimState::Combat, Vec::new());
                r.destination = Destination::PlayerPosition;
                r
            } else {
                let mut r = enemy_unchanged(state, attack);
                r.time = TimeUpdate::Advance;
                r.destination = Destination::PlayerPosition;
                r
            }
        },
        SimState::Combat => {
            if f.flinch_pending {
                enemy_flinching()
            } else {
                enemy_combat(attack, f)
            }
        },
        SimState::Flinching => {
            if f.flinch_time_elapsed {
                let mut r = enemy_entering(SimState::Aggro, Vec::new());
                r.destination = Destination::OwnPosition;
                r
            } else {
                let mut r = enemy_unchanged(state, attack);
                r.time = TimeUpdate::Advance;
                r.destination = Destination::OwnPosition;
                r
            }
        },
        SimState::Dying => {
            let mut r = if f.dying_time_elapsed {
                enemy_entering(SimState::Dead, Vec::new())
            } else {
                let mut r = enemy_unchanged(state, attack);
                r.time = TimeUpdate::Advance;
                r
            };
            r.enable_rotations = true;
            r.drop_weapon = f.holds_weapon;
            r
        },
        SimState::Dead => {
            let mut r = enemy_unchanged(state, attack);
            r.despawn = true;
            r
        },
        _ => enemy_unchanged(state, attack),
    }
}


/// The states of the player character.
#[derive(Debug, Clone, Copy, PartialEq, Eq, Structural)]
pub enum PlayerState {
    Idle,
    Jumping,
    Freefalling,
    Running,
    Attacking,
    Dashing,
    Dying,
    Dead,
    Blocking,
}

/// What is known this tick about the clip the player's animator is playing.
#[derive(Debug, Clone, Copy, PartialEq, Eq, Structural)]
pub struct CurrentClipFacts {
    /// the animation segment it is on
    pub segment: u32,
    /// its playback time has reached its end
    pub finished: bool,
    /// the segment it may be held on, if any
    pub hold_frame: Option<u32>,
}

/// What the player's controller observes this tick.
#[derive(Debug, Clone, Copy, PartialEq, Eq, Structural)]
pub struct PlayerFacts {
    pub right_mouse_down: bool,
    pub left_mouse_just_pressed: bool,
    pub space_just_pressed: bool,
    pub left_shift_down: bool,
    /// one of the movement keys is held
    pub wasd_down: bool,
    /// the body falls at least as fast as the reduced gravity pulls
    pub falling: bool,
    /// the time in state, advanced by this tick, has reached half a second
    pub settled: bool,
    /// the upward speed of a jump has run out
    pub rising_done: bool,
    /// the body touches the ground
    pub grounded: bool,
    /// the time in state, advanced by this tick, has reached the dust interval
    pub dust_due: bool,
    /// the clip the animator is currently playing
    pub current_animation: AnimationType,
    pub clip: CurrentClipFacts,
    pub has_jump_clip: bool,
    pub has_freefall_clip: bool,
    pub has_slash_clip: bool,
    pub has_slash2_clip: bool,
    /// a knockback is active whose blood particles have not been spawned yet
    pub knockback_needs_blood: bool,
}

/// The decision of one player tick, as a mathematical value.
pub ghost struct PlayerPlan {
    pub state: PlayerState,
    pub attack_state: AttackState,
    pub time: TimeUpdate,
    pub animator: Seq<AnimatorAction>,
    pub dash_impulse: bool,
    pub jump_impulse: bool,
    pub sound: Option<SoundType>,
    pub dust: bool,
    pub blood: bool,
}

/// The decision of one player tick.
#[derive(Debug)]
pub struct PlayerStep {
    pub state: PlayerState,
    pub attack_state: AttackState,
    pub time: TimeUpdate,
    /// animator instructions, to be carried out in order
    pub animator: Vec<AnimatorAction>,
    /// push the body forward along its heading
    pub dash_impulse: bool,
    /// lower the gravity scale and push the body upward
    pub jump_impulse: bool,
    /// a sound to play at the player's position
    pub sound: Option<SoundType>,
    /// spawn a puff of dust at the player's position
    pub dust: bool,
    /// spawn blood at the player's bones and mark the knockback's particles as spawned
    pub blood: bool,
}

impl View for PlayerStep {
    type V = PlayerPlan;

    open spec fn view(&self) -> PlayerPlan {
        PlayerPlan {
            state: self.state,
            attack_state: self.attack_state,
            time: self.time,
            animator: self.animator@,
            dash_impulse: self.dash_impulse,
            jump_impulse: self.jump_impulse,
            sound: self.sound,
            dust: self.dust,
            blood: self.blood,
        }
    }
}

/// A player plan with no effects.
pub open spec fn player_plan(
    state: PlayerState,
    attack: AttackState,
    time: TimeUpdate,
    animator: Seq<AnimatorAction>,
) -> PlayerPlan {
    PlayerPlan {
        state,
        attack_state: attack,
        time,
        animator,
        dash_impulse: false,
        jump_impulse: false,
        sound: None,
        dust: false,
        blood: false,
    }
}

/// Jumping off the ground: a jump clip, if there is one, is restarted and requested;
/// `fallback` is requested when there is none.
pub open spec fn player_jump(
    attack: AttackState,
    f: PlayerFacts,
    before: Seq<AnimatorAction>,
    fallback: Option<AnimationType>,
) -> PlayerPlan {
    let anim = if f.has_jump_clip {
        before + seq![
            AnimatorAction::RestartClip(AnimationType::Jump),
            AnimatorAction::SetNext(AnimationType::Jump),
        ]
    } else {
        match fallback {
            Some(a) => before.push(AnimatorAction::SetNext(a)),
            None => before,
        }
    };
    PlayerPlan {
        jump_impulse: true,
        ..player_plan(PlayerState::Jumping, attack, TimeUpdate::Reset, anim)
    }
}

/// Dashing forward.
pub open spec fn player_dash(attack: AttackState, time: TimeUpdate, before: Seq<AnimatorAction>) -> PlayerPlan {
    PlayerPlan {
        dash_impulse: true,
        ..player_plan(
            PlayerState::Dashing,
            attack,
            time,
            before.push(AnimatorAction::SetNext(AnimationType::DashF)),
        )
    }
}

/// Starting the attack chain with the first attack clip from its beginning.
pub open spec fn player_start_attack(attack: AttackState, before: Seq<AnimatorAction>) -> PlayerPlan {
    player_plan(
        PlayerState::Attacking,
        attack,
        TimeUpdate::Reset,
        before + seq![
            AnimatorAction::RestartClip(AnimationType::Slash),
            AnimatorAction::SetNext(AnimationType::Slash),
        ],
    )
}

/// The player in the attack chain, before knockback effects.
pub open spec fn player_attacking(attack: AttackState, f: PlayerFacts) -> PlayerPlan {
    let stay = player_plan(PlayerState::Attacking, attack, TimeUpdate::Keep, Seq::empty());
    let seg = f.clip.segment;
    let to_run = player_plan(
        PlayerState::Running,
        AttackState::Attack1,
        TimeUpdate::Reset,
        seq![AnimatorAction::SetNext(AnimationType::Run)],
    );
    let to_idle = player_plan(
        PlayerState::Idle,
        AttackState::Attack1,
        TimeUpdate::Reset,
        seq![AnimatorAction::SetNext(AnimationType::Idle)],
    );
    match attack {
        AttackState::Attack1 => {
            if f.current_animation != AnimationType::Slash {
                stay
            } else if 12 <= seg < 22 && f.left_mouse_just_pressed {
                player_plan(
                    PlayerState::Attacking,
                    AttackState::Attack2,
                    TimeUpdate::Keep,
                    seq![
                        AnimatorAction::RestartClip(AnimationType::Slash2),
                        AnimatorAction::SetNext(AnimationType::Slash2),
                    ],
                )
            } else if seg >= 22 && f.wasd_down {
                to_run
            } else if f.clip.finished {
                to_idle
            } else {
                stay
            }
        },
        AttackState::Attack2 => {
            if f.current_animation != AnimationType::Slash2 {
                stay
            } else if 12 <= seg < 22 && f.space_just_pressed {
                player_dash(AttackState::Attack1, TimeUpdate::Keep, Seq::empty())
            } else if seg >= 22 && f.wasd_down {
                to_run
            } else if f.clip.finished {
                to_idle
            } else {
                stay
            }
        },
        AttackState::Attack3 => stay,
    }
}

/// The player's state machine, before knockback effects.
pub open spec fn player_transition(state: PlayerState, attack: AttackState, f: PlayerFacts) -> PlayerPlan {
    let adv = TimeUpdate::Advance;
    let falling_settled = f.falling && f.settled;
    match state {
        PlayerState::Idle => {
            let idle = seq![AnimatorAction::SetNext(AnimationType::Idle)];
            if f.right_mouse_down {
                player_plan(
                    PlayerState::Blocking,
                    attack,
                    TimeUpdate::Reset,
                    idle.push(AnimatorAction::SetNext(AnimationType::Block)),
                )
            } else if f.space_just_pressed {
                if f.left_shift_down {
                    player_dash(attack, adv, idle)
                } else {
                    player_jump(attack, f, idle, None)
                }
            } else if f.left_mouse_just_pressed {
                player_start_attack(attack, idle)
            } else if falling_settled {
                player_plan(
                    PlayerState::Freefalling,
                    attack,
                    adv,
                    idle.push(AnimatorAction::SetNext(AnimationType::Freefall)),
                )
            } else if f.wasd_down {
                PlayerPlan {
                    sound: Some(SoundType::Jump),
                    ..player_plan(
                        PlayerState::Running,
                        attack,
                        TimeUpdate::Reset,
                        idle.push(AnimatorAction::SetNext(AnimationType::Run)),
                    )
                }
            } else {
                player_plan(PlayerState::Idle, attack, adv, idle)
            }
        },
        PlayerState::Jumping => {
            if f.rising_done {
                player_plan(PlayerState::Freefalling, attack, TimeUpdate::Reset, Seq::empty())
            } else {
                player_plan(PlayerState::Jumping, attack, adv, Seq::empty())
            }
        },
        PlayerState::Freefalling => {
            if f.grounded {
                PlayerPlan {
                    sound: Some(SoundType::Land),
                    ..player_plan(PlayerState::Running, attack, TimeUpdate::Reset, Seq::empty())
                }
            } else if falling_settled {
                let a = if f.has_freefall_clip {
                    AnimationType::Freefall
                } else {
                    AnimationType::Idle
                };
                player_plan(PlayerState::Freefalling, attack, adv, seq![AnimatorAction::SetNext(a)])
            } else {
                player_plan(PlayerState::Freefalling, attack, adv, Seq::empty())
            }
        },
        PlayerState::Running => {
            if f.space_just_pressed {
                if f.left_shift_down {
                    player_dash(attack, adv, Seq::empty())
                } else {
                    player_jump(attack, f, Seq::empty(), Some(AnimationType::Idle))
                }
            } else if !f.wasd_down {
                PlayerPlan {
                    sound: Some(SoundType::Jump),
                    ..player_plan(PlayerState::Idle, attack, TimeUpdate::Reset, Seq::empty())
                }
            } else if f.left_mouse_just_pressed {
                player_start_attack(AttackState::Attack1, Seq::empty())
            } else if falling_settled {
                player_plan(
                    PlayerState::Freefalling,
                    attack,
                    adv,
                    seq![AnimatorAction::SetNext(AnimationType::Freefall)],
                )
            } else {
                player_plan(PlayerState::Running, attack, adv, Seq::empty())
            }
        },
        PlayerState::Attacking => player_attacking(attack, f),
        PlayerState::Dashing => {
            let t = if f.dust_due {
                TimeUpdate::Reset
            } else {
                adv
            };
            let p = if f.current_animation != AnimationType::DashF {
                player_plan(
                    PlayerState::Dashing,
                    attack,
                    t,
                    seq![AnimatorAction::SetNext(AnimationType::DashF)],
                )
            } else if f.wasd_down && f.clip.segment >= 12 {
                player_plan(
                    PlayerState::Running,
                    attack,
                    TimeUpdate::Reset,
                    seq![AnimatorAction::SetNext(AnimationType::Run)],
                )
            } else if f.clip.finished {
                player_plan(PlayerState::Idle, attack, TimeUpdate::Reset, Seq::empty())
            } else {
                player_plan(PlayerState::Dashing, attack, t, Seq::empty())
            };
            PlayerPlan { dust: f.dust_due, ..p }
        },
        PlayerState::Dying => player_plan(PlayerState::Dying, attack, TimeUpdate::Keep, Seq::empty()),
        PlayerState::Dead => player_plan(PlayerState::Dead, attack, TimeUpdate::Keep, Seq::empty()),
        PlayerState::Blocking => {
            if f.current_animation != AnimationType::Block {
                player_plan(PlayerState::Blocking, attack, adv, Seq::empty())
            } else if f.right_mouse_down && f.clip.hold_frame == Some(f.clip.segment) {
                player_plan(PlayerState::Blocking, attack, adv, seq![AnimatorAction::SetHold(true)])
            } else {
                let release = seq![AnimatorAction::SetHold(false)];
                if f.wasd_down && f.clip.segment > 6 {
                    player_plan(
                        PlayerState::Running,
                        attack,
                        TimeUpdate::Reset,
                        release.push(AnimatorAction::SetNext(AnimationType::Run)),
                    )
                } else if f.left_mouse_just_pressed && f.clip.segment >= 6 {
                    player_plan(
                        PlayerState::Attacking,
                        AttackState::Attack1,
                        TimeUpdate::Reset,
                        release.push(AnimatorAction::SetNext(AnimationType::Slash)),
                    )
                } else if f.clip.finished {
                    player_plan(
                        PlayerState::Idle,
                        attack,
                        TimeUpdate::Reset,
                        release.push(AnimatorAction::SetNext(AnimationType::Idle)),
                    )
                } else {
                    player_plan(PlayerState::Blocking, attack, adv, release)
                }
            }
        },
    }
}

/// One tick of the player in `state` at step `attack` of the attack chain: the state
/// machine, then blood for a fresh knockback unless the player ends up blocking.
pub open spec fn spec_player_step(state: PlayerState, attack: AttackState, f: PlayerFacts) -> PlayerPlan {
    let p = player_transition(state, attack, f);
    PlayerPlan { blood: f.knockback_needs_blood && !(p.state is Blocking), ..p }
}

/// The ticks on which the player machine cannot proceed: those that rewind an attack
/// clip the animator lacks.
pub open spec fn player_step_refused(state: PlayerState, attack: AttackState, f: PlayerFacts) -> bool {
    match state {
        PlayerState::Idle => !f.right_mouse_down && !f.space_just_pressed && f.left_mouse_just_pressed
            && !f.has_slash_clip,
        PlayerState::Running => f.wasd_down && !f.space_just_pressed && f.left_mouse_just_pressed
            && !f.has_slash_clip,
        PlayerState::Attacking => attack is Attack1 && f.current_animation == AnimationType::Slash
            && 12 <= f.clip.segment < 22 && f.left_mouse_just_pressed && !f.has_slash2_clip,
        _ => false,
    }
}


fn plan(state: PlayerState, attack: AttackState, time: TimeUpdate, animator: Vec<AnimatorAction>) -> (r: PlayerStep)
    ensures
        r@ == player_plan(state, attack, time, animator@),
{
    PlayerStep {
        state,
        attack_state: attack,
        time,
        animator,
        dash_impulse: false,
        jump_impulse: false,
        sound: None,
        dust: false,
        blood: false,
    }
}

fn one(a: AnimatorAction) -> (v: Vec<AnimatorAction>)
    ensures
        v@ == seq![a],
{
    let mut v = Vec::new();
    v.push(a);
    assert(v@ =~= seq![a]);
    v
}

fn jumping(attack: AttackState, f: &PlayerFacts, before: Vec<AnimatorAction>, fallback: Option<AnimationType>) -> (r: PlayerStep)
    ensures
        r@ == player_jump(attack, *f, before@, fallback),
{
    let mut anim = before;
    let ghost b = anim@;
    if f.has_jump_clip {
        anim.push(AnimatorAction::RestartClip(AnimationType::Jump));
        anim.push(AnimatorAction::SetNext(AnimationType::Jump));
        assert(anim@ =~= b + seq![
            AnimatorAction::RestartClip(AnimationType::Jump),
            AnimatorAction::SetNext(AnimationType::Jump),
        ]);
    } else {
        match fallback {
            Some(a) => anim.push(AnimatorAction::SetNext(a)),
            None => {},
        }
    }
    let mut r = plan(PlayerState::Jumping, attack, TimeUpdate::Reset, anim);
    r.jump_impulse = true;
    r
}

fn dashing(attack: AttackState, time: TimeUpdate, before: Vec<AnimatorAction>) -> (r: PlayerStep)
    ensures
        r@ == player_dash(attack, time, before@),
{
    let mut anim = before;
    anim.push(AnimatorAction::SetNext(AnimationType::DashF));
    let mut r = plan(PlayerState::Dashing, attack, time, anim);
    r.dash_impulse = true;
    r
}

fn start_attack(attack: AttackState, before: Vec<AnimatorAction>) -> (r: PlayerStep)
    ensures
        r@ == player_start_attack(attack, before@),
{
    let mut anim = before;
    let ghost b = anim@;
    anim.push(AnimatorAction::RestartClip(AnimationType::Slash));
    anim.push(AnimatorAction::SetNext(AnimationType::Slash));
    assert(anim@ =~= b + seq![
        AnimatorAction::RestartClip(AnimationType::Slash),
        AnimatorAction::SetNext(AnimationType::Slash),
    ]);
    plan(PlayerState::Attacking, attack, TimeUpdate::Reset, anim)
}

fn attacking(attack: AttackState, f: &PlayerFacts) -> (r: PlayerStep)
    ensures
        r@ == player_attacking(attack, *f),
{
    let seg = f.clip.segment;
    match attack {
        AttackState::Attack1 => {
            if f.current_animation != AnimationType::Slash {
                plan(PlayerState::Attacking, attack, TimeUpdate::Keep, Vec::new())
            } else if 12 <= seg && seg < 22 && f.left_mouse_just_pressed {
                let mut anim = one(AnimatorAction::RestartClip(AnimationType::Slash2));
                anim.push(AnimatorAction::SetNext(AnimationType::Slash2));
                assert(anim@ =~= seq![
                    AnimatorAction::RestartClip(AnimationType::Slash2),
                    AnimatorAction::SetNext(AnimationType::Slash2),
                ]);
                plan(PlayerState::Attacking, AttackState::Attack2, TimeUpdate::Keep, anim)
            } else if seg >= 22 && f.wasd_down {
                plan(PlayerState::Running, AttackState::Attack1, TimeUpdate::Reset, one(AnimatorAction::SetNext(AnimationType::Run)))
            } else if f.clip.finished {
                plan(PlayerState::Idle, AttackState::Attack1, TimeUpdate::Reset, one(AnimatorAction::SetNext(AnimationType::Idle)))
            } else {
                plan(PlayerState::Attacking, attack, TimeUpdate::Keep, Vec::new())
            }
        },
        AttackState::Attack2 => {
            if f.current_animation != AnimationType::Slash2 {
                plan(PlayerState::Attacking, attack, TimeUpdate::Keep, Vec::new())
            } else if 12 <= seg && seg < 22 && f.space_just_pressed {
                dashing(AttackState::Attack1, TimeUpdate::Keep, Vec::new())
            } else if seg >= 22 && f.wasd_down {
                plan(PlayerState::Running, AttackState::Attack1, TimeUpdate::Reset, one(AnimatorAction::SetNext(AnimationType::Run)))
            } else if f.clip.finished {
                plan(PlayerState::Idle, AttackState::Attack1, TimeUpdate::Reset, one(AnimatorAction::SetNext(AnimationType::Idle)))
            } else {
                plan(PlayerState::Attacking, attack, TimeUpdate::Keep, Vec::new())
            }
        },
        AttackState::Attack3 => plan(PlayerState::Attacking, attack, TimeUpdate::Keep, Vec::new()),
    }
}

fn transition(state: PlayerState, attack: AttackState, f: &PlayerFacts) -> (r: PlayerStep)
    ensures
        r@ == player_transition(state, attack, *f),
{
    let adv = TimeUpdate::Advance;
    let falling_settled = f.falling && f.settled;
    match state {
        PlayerState::Idle => {
            let mut idle = one(AnimatorAction::SetNext(AnimationType::Idle));
            if f.right_mouse_down {
                idle.push(AnimatorAction::SetNext(AnimationType::Block));
                plan(PlayerState::Blocking, attack, TimeUpdate::Reset, idle)
            } else if f.space_just_pressed {
                if f.left_shift_down {
                    dashing(attack, adv, idle)
                } else {
                    jumping(attack, f, idle, None)
                }
            } else if f.left_mouse_just_pressed {
                start_attack(attack, idle)
            } else if falling_settled {
                idle.push(AnimatorAction::SetNext(AnimationType::Freefall));
                plan(PlayerState::Freefalling, attack, adv, idle)
            } else if f.wasd_down {
                idle.push(AnimatorAction::SetNext(AnimationType::Run));
                let mut r = plan(PlayerState::Running, attack, TimeUpdate::Reset, idle);
                r.sound = Some(SoundType::Jump);
                r
            } else {
                plan(PlayerState::Idle, attack, adv, idle)
            }
        },
        PlayerState::Jumping => {
            if f.rising_done {
                plan(PlayerState::Freefalling, attack, TimeUpdate::Reset, Vec::new())
            } else {
                plan(PlayerState::Jumping, attack, adv, Vec::new())
            }
        },
        PlayerState::Freefalling => {
            if f.grounded {
                let mut r = plan(PlayerState::Running, attack, TimeUpdate::Reset, Vec::new());
                r.sound = Some(SoundType::Land);
                r
            } else if falling_settled {
                let a = if f.has_freefall_clip {
                    AnimationType::Freefall
                } else {
                    AnimationType::Idle
                };
                plan(PlayerState::Freefalling, attack, adv, one(AnimatorAction::SetNext(a)))
            } else {
                plan(PlayerState::Freefalling, attack, adv, Vec::new())
            }
        },
        PlayerState::Running => {
            if f.space_just_pressed {
                if f.left_shift_down {
                    dashing(attack, adv, Vec::new())
                } else {
                    jumping(attack, f, Vec::new(), Some(AnimationType::Idle))
                }
            } else if !f.wasd_down {
                let mut r = plan(PlayerState::Idle, attack, TimeUpdate::Reset, Vec::new());
                r.sound = Some(SoundType::Jump);
                r
            } else if f.left_mouse_just_pressed {
                start_attack(AttackState::Attack1, Vec::new())
            } else if falling_settled {
                plan(PlayerState::Freefalling, attack, adv, one(AnimatorAction::SetNext(AnimationType::Freefall)))
            } else {
                plan(PlayerState::Running, attack, adv, Vec::new())
            }
        },
        PlayerState::Attacking => attacking(attack, f),
        PlayerState::Dashing => {
            let t = if f.dust_due {
                TimeUpdate::Reset
            } else {
                adv
            };
            let mut r = if f.current_animation != AnimationType::DashF {
                plan(PlayerState::Dashing, attack, t, one(AnimatorAction::SetNext(AnimationType::DashF)))
            } else if f.wasd_down && f.clip.segment >= 12 {
                plan(PlayerState::Running, attack, TimeUpdate::Reset, one(AnimatorAction::SetNext(AnimationType::Run)))
            } else if f.clip.finished {
                plan(PlayerState::Idle, attack, TimeUpdate::Reset, Vec::new())
            } else {
                plan(PlayerState::Dashing, attack, t, Vec::new())
            };
            r.dust = f.dust_due;
            r
        },
        PlayerState::Dying => plan(PlayerState::Dying, attack, TimeUpdate::Keep, Vec::new()),
        PlayerState::Dead => plan(PlayerState::Dead, attack, TimeUpdate::Keep, Vec::new()),
        PlayerState::Blocking => {
            if f.current_animation != AnimationType::Block {
                plan(PlayerState::Blocking, attack, adv, Vec::new())
            } else if f.right_mouse_down && f.clip.hold_frame == Some(f.clip.segment) {
                plan(PlayerState::Blocking, attack, adv, one(AnimatorAction::SetHold(true)))
            } else {
                let mut release = one(AnimatorAction::SetHold(false));
                if f.wasd_down && f.clip.segment > 6 {
                    release.push(AnimatorAction::SetNext(AnimationType::Run));
                    plan(PlayerState::Running, attack, TimeUpdate::Reset, release)
                } else if f.left_mouse_just_pressed && f.clip.segment >= 6 {
                    release.push(AnimatorAction::SetNext(AnimationType::Slash));
                    plan(PlayerState::Attacking, AttackState::Attack1, TimeUpdate::Reset, release)
                } else if f.clip.finished {
                    release.push(AnimatorAction::SetNext(AnimationType::Idle));
                    plan(PlayerState::Idle, attack, TimeUpdate::Reset, release)
                } else {
                    plan(PlayerState::Blocking, attack, adv, release)
                }
            }
        },
    }
}

/// Decides one tick of the player in `state` at step `attack` of the attack chain, from
/// what the controller observes this tick.
pub fn player_step(state: PlayerState, attack: AttackState, f: &PlayerFacts) -> (r: PlayerStep)
    requires
        !player_step_refused(state, attack, *f),
    ensures
        r@ == spec_player_step(state, attack, *f),
{
    let mut r = transition(state, attack, f);
    r.blood = f.knockback_needs_blood && r.state != PlayerState::Blocking;
    r
}


/// An enemy whose health has run out starts dying, whatever it was doing, unless it
/// is already dying or dead.
pub proof fn lemma_enemy_depleted_health_kills(state: SimState, attack: AttackState, f: EnemyFacts)
    requires
        f.health_depleted,
        !(state is Dying || state is Dead),
    ensures
        spec_enemy_step(state, attack, f).state is Dying,
        spec_enemy_step(state, attack, f).animator == seq![AnimatorAction::SetNext(AnimationType::Idle)],
{
    assert(spec_enemy_step(state, attack, f).animator =~= seq![
        AnimatorAction::SetNext(AnimationType::Idle),
    ]);
}

/// A dancing enemy dances forever, a dead one stays dead and is removed, and a dying
/// one never comes back to life.
pub proof fn lemma_enemy_terminal_states(state: SimState, attack: AttackState, f: EnemyFacts)
    ensures
        state is Dancing && !f.health_depleted ==> spec_enemy_step(state, attack, f) == enemy_idle_plan(
            state,
            attack,
        ),
        state is Dead ==> spec_enemy_step(state, attack, f).state is Dead && spec_enemy_step(
            state,
            attack,
            f,
        ).despawn,
        state is Dying ==> (spec_enemy_step(state, attack, f).state is Dying || spec_enemy_step(
            state,
            attack,
            f,
        ).state is Dead),
{
}

/// Whenever an enemy changes state, its time in state and its attack chain start over
/// and the clip of the new state is requested.
pub proof fn lemma_enemy_state_change_restarts(state: SimState, attack: AttackState, f: EnemyFacts)
    requires
        !enemy_step_refused(state, f),
        spec_enemy_step(state, attack, f).state != state,
    ensures
        spec_enemy_step(state, attack, f).attack_state is Attack1,
        spec_enemy_step(state, attack, f).time is Reset,
        spec_enemy_step(state, attack, f).animator.contains(
            AnimatorAction::SetNext(anim_for_sim_state(spec_enemy_step(state, attack, f).state)),
        ),
{
    let p = spec_enemy_step(state, attack, f);
    let a = AnimatorAction::SetNext(anim_for_sim_state(p.state));
    if p.state is Flinching {
        assert(p.animator[0] == a);
    } else if state is Init && !f.health_depleted && !f.is_moose_man {
        assert(p.animator[0] == a);
    } else {
        assert(p.animator[p.animator.len() - 1] == a);
    }
}

/// A pending flinch interrupts an enemy that is waiting, chasing or fighting, and is
/// consumed.
pub proof fn lemma_enemy_flinch_interrupts(state: SimState, attack: AttackState, f: EnemyFacts)
    requires
        f.flinch_pending,
        !f.health_depleted,
        state is Waiting || state is Aggro || state is Combat,
    ensures
        spec_enemy_step(state, attack, f).state is Flinching,
        spec_enemy_step(state, attack, f).clear_flinch,
{
}

/// A chasing enemy that gets the player within reach of its weapon starts fighting,
/// unless it flinches or dies first.
pub proof fn lemma_enemy_engages_in_reach(attack: AttackState, f: EnemyFacts)
    requires
        !f.health_depleted,
        !f.flinch_pending,
        f.within_aggro_range,
        f.within_weapon_length,
    ensures
        spec_enemy_step(SimState::Aggro, attack, f).state is Combat,
        spec_enemy_step(SimState::Aggro, attack, f).destination is PlayerPosition,
{
}

/// The player's dying and dead states are final and do nothing.
pub proof fn lemma_player_terminal_states(state: PlayerState, attack: AttackState, f: PlayerFacts)
    requires
        state is Dying || state is Dead,
    ensures
        spec_player_step(state, attack, f).state == state,
        spec_player_step(state, attack, f).animator.len() == 0,
        !spec_player_step(state, attack, f).dash_impulse,
        !spec_player_step(state, attack, f).jump_impulse,
        spec_player_step(state, attack, f).sound is None,
{
}

/// The jump impulse is applied exactly when the player takes off into a jump.
pub proof fn lemma_player_jump_impulse(state: PlayerState, attack: AttackState, f: PlayerFacts)
    ensures
        spec_player_step(state, attack, f).jump_impulse <==> (spec_player_step(
            state,
            attack,
            f,
        ).state is Jumping && !(state is Jumping)),
{
}

/// The dash impulse is applied exactly when the player starts a dash.
pub proof fn lemma_player_dash_impulse(state: PlayerState, attack: AttackState, f: PlayerFacts)
    ensures
        spec_player_step(state, attack, f).dash_impulse <==> (spec_player_step(
            state,
            attack,
            f,
        ).state is Dashing && !(state is Dashing)),
{
}

/// Starting an attack always requests the first attack clip.
pub proof fn lemma_player_attack_requests_slash(state: PlayerState, attack: AttackState, f: PlayerFacts)
    requires
        !(state is Attacking),
        spec_player_step(state, attack, f).state is Attacking,
    ensures
        spec_player_step(state, attack, f).animator.contains(AnimatorAction::SetNext(AnimationType::Slash)),
{
    let p = spec_player_step(state, attack, f);
    assert(p.animator[p.animator.len() - 1] == AnimatorAction::SetNext(AnimationType::Slash));
}

/// A block shields the player from the knockback's blood.
pub proof fn lemma_player_blocking_hides_blood(state: PlayerState, attack: AttackState, f: PlayerFacts)
    ensures
        spec_player_step(state, attack, f).blood <==> (f.knockback_needs_blood && !(spec_player_step(
            state,
            attack,
            f,
        ).state is Blocking)),
{
}

/// When the second attack clip has run to its end with the player still within reach,
/// an enemy in combat goes back to its first attack: it stays in combat, restarts its
/// time, heads for the player and asks for the first attack clip, rewinding that clip
/// first when the second one is the one playing.
pub proof fn lemma_enemy_second_attack_returns_to_first(f: EnemyFacts)
    requires
        !f.health_depleted,
        !f.flinch_pending,
        f.within_weapon_length,
        (f.current_animation != AnimationType::Slash && f.slash2.finished) || (f.current_animation
            == AnimationType::Slash && f.slash2.finished_from_start),
    ensures
        spec_enemy_step(SimState::Combat, AttackState::Attack2, f).state is Combat,
        spec_enemy_step(SimState::Combat, AttackState::Attack2, f).attack_state is Attack1,
        spec_enemy_step(SimState::Combat, AttackState::Attack2, f).time is Reset,
        spec_enemy_step(SimState::Combat, AttackState::Attack2, f).destination is PlayerPosition,
        spec_enemy_step(SimState::Combat, AttackState::Attack2, f).animator.last()
            == AnimatorAction::SetNext(AnimationType::Slash),
        f.current_animation == AnimationType::Slash2 ==> spec_enemy_step(
            SimState::Combat,
            AttackState::Attack2,
            f,
        ).animator == seq![
            AnimatorAction::RestartClip(AnimationType::Slash),
            AnimatorAction::SetNext(AnimationType::Slash),
        ],
{
    let p = spec_enemy_step(SimState::Combat, AttackState::Attack2, f);
    if f.current_animation == AnimationType::Slash2 {
        assert(p.animator =~= seq![
            AnimatorAction::RestartClip(AnimationType::Slash),
            AnimatorAction::SetNext(AnimationType::Slash),
        ]);
    }
}

/// When the first attack clip has run to its end with the player still within reach,
/// an enemy in combat goes on to its second attack and asks for the second attack clip,
/// rewinding that clip first when the first one is the one playing.
pub proof fn lemma_enemy_first_attack_leads_to_second(f: EnemyFacts)
    requires
        !f.health_depleted,
        !f.flinch_pending,
        f.within_weapon_length,
        (f.current_animation != AnimationType::Slash2 && f.slash.finished) || (f.current_animation
            == AnimationType::Slash2 && f.slash.finished_from_start),
    ensures
        spec_enemy_step(SimState::Combat, AttackState::Attack1, f).state is Combat,
        spec_enemy_step(SimState::Combat, AttackState::Attack1, f).attack_state is Attack2,
        spec_enemy_step(SimState::Combat, AttackState::Attack1, f).time is Reset,
        spec_enemy_step(SimState::Combat, AttackState::Attack1, f).animator.last()
            == AnimatorAction::SetNext(AnimationType::Slash2),
        f.current_animation == AnimationType::Slash ==> spec_enemy_step(
            SimState::Combat,
            AttackState::Attack1,
            f,
        ).animator == seq![
            AnimatorAction::RestartClip(AnimationType::Slash2),
            AnimatorAction::SetNext(AnimationType::Slash2),
        ],
{
    let p = spec_enemy_step(SimState::Combat, AttackState::Attack1, f);
    if f.current_animation == AnimationType::Slash {
        assert(p.animator =~= seq![
            AnimatorAction::RestartClip(AnimationType::Slash2),
            AnimatorAction::SetNext(AnimationType::Slash2),
        ]);
    }
}

/// The attack chain of an enemy alternates between its two attacks: a tick that keeps
/// it in combat either keeps its attack or moves to the other one, and it moves exactly
/// when its time restarts, asking then for the clip of the new attack. It leaves combat
/// only to chase the player again, once the player is out of reach.
pub proof fn lemma_enemy_attacks_alternate(attack: AttackState, f: EnemyFacts)
    requires
        !f.health_depleted,
        !f.flinch_pending,
        attack is Attack1 || attack is Attack2,
    ensures
        ({
            let p = spec_enemy_step(SimState::Combat, attack, f);
            &&& p.state is Combat || (p.state is Aggro && !f.within_weapon_length)
            &&& p.state is Combat ==> (p.attack_state is Attack1 || p.attack_state is Attack2)
            &&& p.state is Combat ==> (p.attack_state != attack <==> p.time is Reset)
            &&& p.state is Combat && p.attack_state != attack ==> p.animator.last()
                == AnimatorAction::SetNext(
                if p.attack_state is Attack1 {
                    AnimationType::Slash
                } else {
                    AnimationType::Slash2
                },
            )
        }),
{
}

/// A falling player lands exactly on the tick it touches the ground: it then runs, with
/// its time restarted, its attack step kept and the landing sound; until then it keeps
/// falling.
pub proof fn lemma_player_lands_when_grounded(attack: AttackState, f: PlayerFacts)
    ensures
        f.grounded ==> spec_player_step(PlayerState::Freefalling, attack, f).state is Running,
        f.grounded ==> spec_player_step(PlayerState::Freefalling, attack, f).time is Reset,
        f.grounded ==> spec_player_step(PlayerState::Freefalling, attack, f).sound == Some(
            SoundType::Land,
        ),
        f.grounded ==> spec_player_step(PlayerState::Freefalling, attack, f).attack_state == attack,
        !f.grounded ==> spec_player_step(PlayerState::Freefalling, attack, f).state is Freefalling,
{
}

/// The landing sound plays exactly when a falling player touches the ground, and a
/// player who lands is no longer falling but running.
pub proof fn lemma_player_land_sound_marks_landing(state: PlayerState, attack: AttackState, f: PlayerFacts)
    ensures
        spec_player_step(state, attack, f).sound == Some(SoundType::Land) <==> (state is Freefalling
            && f.grounded),
        spec_player_step(state, attack, f).sound == Some(SoundType::Land) ==> spec_player_step(
            state,
            attack,
            f,
        ).state is Running,
{
}

/// An enemy's watch, chase and recovery: a waiting enemy that sees the player chases
/// it; a chasing enemy that loses the player out of its aggro range waits again; a
/// flinch, once its clip has played, turns back into a chase; a dying enemy is dead once
/// its dying time is up. Each move restarts the time and the attack chain.
pub proof fn lemma_enemy_watch_and_chase(attack: AttackState, f: EnemyFacts)
    requires
        !f.health_depleted,
    ensures
        !f.flinch_pending && f.can_see_player ==> spec_enemy_step(SimState::Waiting, attack, f).state is Aggro,
        !f.flinch_pending && !f.can_see_player ==> spec_enemy_step(SimState::Waiting, attack, f).state is Waiting,
        !f.flinch_pending && !f.within_aggro_range ==> spec_enemy_step(SimState::Aggro, attack, f).state is Waiting,
        !f.flinch_pending && f.within_aggro_range && !f.within_weapon_length ==> spec_enemy_step(
            SimState::Aggro,
            attack,
            f,
        ).state is Aggro,
        f.flinch_time_elapsed ==> spec_enemy_step(SimState::Flinching, attack, f).state is Aggro,
        !f.flinch_time_elapsed ==> spec_enemy_step(SimState::Flinching, attack, f).state is Flinching,
        f.dying_time_elapsed ==> spec_enemy_step(SimState::Dying, attack, f).state is Dead,
        !f.dying_time_elapsed ==> spec_enemy_step(SimState::Dying, attack, f).state is Dying,
        spec_enemy_step(SimState::Dying, attack, f).drop_weapon == f.holds_weapon,
        ({
            let p = spec_enemy_step(SimState::Waiting, attack, f);
            p.state is Aggro ==> p.time is Reset && p.attack_state is Attack1 && p.animator.last()
                == AnimatorAction::SetNext(AnimationType::Run)
        }),
{
}

/// The player's attack chain: a click during the first swing's window goes on to the
/// second swing, and a jump press during the second swing's window dashes out of it,
/// back at the first step of the chain.
pub proof fn lemma_player_attack_chain(f: PlayerFacts)
    requires
        12 <= f.clip.segment < 22,
    ensures
        f.current_animation == AnimationType::Slash && f.left_mouse_just_pressed ==> {
            let p = spec_player_step(PlayerState::Attacking, AttackState::Attack1, f);
            &&& p.state is Attacking
            &&& p.attack_state is Attack2
            &&& p.animator.last() == AnimatorAction::SetNext(AnimationType::Slash2)
        },
        f.current_animation == AnimationType::Slash2 && f.space_just_pressed ==> {
            let p = spec_player_step(PlayerState::Attacking, AttackState::Attack2, f);
            &&& p.state is Dashing
            &&& p.attack_state is Attack1
            &&& p.dash_impulse
        },
{
}

/// A jump rises until its upward speed runs out, then falls with its time restarted;
/// an idle player who holds the right mouse button raises a block.
pub proof fn lemma_player_jump_and_block(attack: AttackState, f: PlayerFacts)
    ensures
        f.rising_done ==> spec_player_step(PlayerState::Jumping, attack, f).state is Freefalling
            && spec_player_step(PlayerState::Jumping, attack, f).time is Reset,
        !f.rising_done ==> spec_player_step(PlayerState::Jumping, attack, f).state is Jumping,
        f.right_mouse_down ==> spec_player_step(PlayerState::Idle, attack, f).state is Blocking
            && spec_player_step(PlayerState::Idle, attack, f).animator.last() == AnimatorAction::SetNext(
            AnimationType::Block,
        ),
{
}

} // verus!

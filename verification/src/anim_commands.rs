//! The pass that carries out the animation commands of a tick, in the order they were
//! queued. A command for an entity without an animator, or whose animator lacks the
//! clip it plays or the clip it blends into, is skipped; so is a command that needs a
//! weapon when it names none or the weapon has no action helper (or, for an action by
//! name, no abilities). The pass stops where the game stops: at an entity or weapon id
//! beyond the capacity of the component sets, an action name that names no action, a
//! basic attack with an empty chain, a clip name that names no animation type, or an
//! ability whose clip is unknown.
use crate::abilities::{AbilityId, WeaponAbilities};
use crate::animation::{AnimationSelection, NextAnimationEffects};
use crate::command_buffer::{AnimCmd, AnimOp};
use crate::config::WeaponActionsHelper;
use crate::enums_types::AnimationType;
use crate::sparse_set::SparseSet;
use crate::weapon_actions::{spec_action_from_name, turned, WeaponAction};
use vstd::prelude::*;

verus! {

/// A clip an animator has, as the command pass sees it: its animation type, whether
/// it starts over when it is switched to, and whether it holds on its hold frame.
#[derive(Debug, Clone, Copy, PartialEq, Eq, Structural)]
pub struct ClipFlags {
    pub name: AnimationType,
    pub reset_on_change: bool,
    pub do_hold: bool,
}

/// An animator as the command pass sees it: the clips it plays and the clips it has.
#[derive(Debug)]
pub struct AnimatorState {
    pub selection: AnimationSelection,
    pub clips: Vec<ClipFlags>,
}

/// What the pass did with one command.
#[derive(Debug, Clone, Copy, PartialEq, Eq, Structural)]
pub enum CommandOutcome {
    /// the command was skipped
    Skipped,
    /// the command was carried out
    Applied,
    /// a next clip was asked for, with these effects on the animator's blend and clip
    NextRequested(NextAnimationEffects),
}

/// An animator, seen as its selection and its clips.
pub type AnimatorView = (AnimationSelection, Seq<ClipFlags>);

/// A weapon's action helper, seen as its chain, its starting chain, its dash clip and
/// its block clip.
pub type HelperView = (Seq<String>, Seq<String>, String, String);

/// The animators by entity, seen as views.
pub open spec fn animator_views(m: Map<usize, AnimatorState>) -> Map<usize, AnimatorView> {
    m.map_values(|a: AnimatorState| (a.selection, a.clips@))
}

/// The action helpers by weapon, seen as views.
pub open spec fn helper_views(m: Map<usize, WeaponActionsHelper>) -> Map<usize, HelperView> {
    m.map_values(|h: WeaponActionsHelper| (h.basic_chain@, h.basic_chain_default@, h.dash, h.block))
}

/// `i` is the first clip of type `t`.
pub open spec fn is_first_clip(clips: Seq<ClipFlags>, t: AnimationType, i: int) -> bool {
    &&& 0 <= i < clips.len()
    &&& clips[i].name == t
    &&& forall|j: int| 0 <= j < i ==> (#[trigger] clips[j]).name != t
}

/// The animator has a clip of type `t`.
pub open spec fn has_clip(clips: Seq<ClipFlags>, t: AnimationType) -> bool {
    exists|i: int| 0 <= i < clips.len() && (#[trigger] clips[i]).name == t
}

/// The first clip of type `t`, which the animator plays for `t`.
pub open spec fn first_clip(clips: Seq<ClipFlags>, t: AnimationType) -> int {
    choose|i: int| is_first_clip(clips, t, i)
}

/// `i` is the first entry for ability `id`.
pub open spec fn is_first_entry(pairs: Seq<(AbilityId, AnimationType)>, id: AbilityId, i: int) -> bool {
    &&& 0 <= i < pairs.len()
    &&& pairs[i].0 == id
    &&& forall|j: int| 0 <= j < i ==> (#[trigger] pairs[j]).0 != id
}

/// The clip of ability `id`: the first entry for it, if any.
pub open spec fn ability_clip(pairs: Seq<(AbilityId, AnimationType)>, id: AbilityId) -> Option<AnimationType> {
    if exists|i: int| 0 <= i < pairs.len() && (#[trigger] pairs[i]).0 == id {
        Some(pairs[choose|i: int| is_first_entry(pairs, id, i)].1)
    } else {
        None
    }
}

/// The selection and the effects after asking an animator for clip `t` next: a clip it
/// lacks makes it blend back into its current clip; the clip already next changes
/// nothing; another clip becomes next, starting over if it does so on a change.
pub open spec fn request_next(a: AnimatorView, t: AnimationType) -> (AnimationSelection, NextAnimationEffects) {
    if !has_clip(a.1, t) {
        (
            AnimationSelection { current_animation: a.0.current_animation, next_animation: a.0.current_animation },
            NextAnimationEffects { restart_blend: true, rewind_clip: false },
        )
    } else if a.0.next_animation == t {
        (a.0, NextAnimationEffects { restart_blend: false, rewind_clip: false })
    } else {
        (
            AnimationSelection { current_animation: a.0.current_animation, next_animation: t },
            NextAnimationEffects { restart_blend: true, rewind_clip: a.1[first_clip(a.1, t)].reset_on_change },
        )
    }
}

/// The clips after setting the hold flag of the first clip of type `t` to `hold`.
pub open spec fn with_hold(clips: Seq<ClipFlags>, t: AnimationType, hold: bool) -> Seq<ClipFlags> {
    let i = first_clip(clips, t);
    clips.update(i, ClipFlags { name: clips[i].name, reset_on_change: clips[i].reset_on_change, do_hold: hold })
}

/// The result of one step: the animators, the helpers and the outcome.
pub type StepResult = (Map<usize, AnimatorView>, Map<usize, HelperView>, CommandOutcome);

/// The clip that an action of weapon `w` plays, as a name or as an animation type,
/// given the weapon's helper `h` and abilities `ab`: None where the game stops.
pub open spec fn action_target(
    act: WeaponAction,
    h: HelperView,
    ab: WeaponAbilities,
    aclips: Seq<(AbilityId, AnimationType)>,
) -> Option<Option<AnimationType>> {
    let slot = match act {
        WeaponAction::Skill1 => ab.q,
        WeaponAction::Skill2 => ab.e,
        _ => ab.r,
    };
    match act {
        WeaponAction::Basic => if h.0.len() == 0 {
            None
        } else {
            match AnimationType::spec_from_name(h.0[0]@) {
                None => None,
                Some(t) => Some(Some(t)),
            }
        },
        WeaponAction::Dash => match AnimationType::spec_from_name(h.2@) {
            None => None,
            Some(t) => Some(Some(t)),
        },
        WeaponAction::Block => match AnimationType::spec_from_name(h.3@) {
            None => None,
            Some(t) => Some(Some(t)),
        },
        _ => match slot {
            None => Some(None),
            Some(id) => match ability_clip(aclips, id) {
                None => None,
                Some(t) => Some(Some(t)),
            },
        },
    }
}

/// One command, carried out on the animators `avs` and the helpers `hvs`, with the
/// abilities `abil` and the clips of the abilities `aclips`; the component sets hold
/// ids below `acap`, `hcap` and `abcap`. None where the game stops.
pub open spec fn anim_step(
    avs: Map<usize, AnimatorView>,
    hvs: Map<usize, HelperView>,
    acap: nat,
    hcap: nat,
    abil: Map<usize, WeaponAbilities>,
    abcap: nat,
    aclips: Seq<(AbilityId, AnimationType)>,
    c: AnimCmd,
) -> Option<StepResult> {
    let skip = Some((avs, hvs, CommandOutcome::Skipped));
    if c.target >= acap {
        None
    } else if !avs.contains_key(c.target) {
        skip
    } else {
        let a = avs[c.target];
        if !has_clip(a.1, a.0.next_animation) || !has_clip(a.1, a.0.current_animation) {
            skip
        } else {
            match c.op {
                AnimOp::SetNextAnimation(t) => {
                    let (sel, fx) = request_next(a, t);
                    Some((avs.insert(c.target, (sel, a.1)), hvs, CommandOutcome::NextRequested(fx)))
                },
                AnimOp::SetCurrentAnimation(t) => Some(
                    (
                        avs.insert(
                            c.target,
                            (AnimationSelection { current_animation: t, next_animation: a.0.next_animation }, a.1),
                        ),
                        hvs,
                        CommandOutcome::Applied,
                    ),
                ),
                AnimOp::DoHold(t) => if has_clip(a.1, t) {
                    Some((avs.insert(c.target, (a.0, with_hold(a.1, t, true))), hvs, CommandOutcome::Applied))
                } else {
                    skip
                },
                AnimOp::StopHold(t) => if has_clip(a.1, t) {
                    Some((avs.insert(c.target, (a.0, with_hold(a.1, t, false))), hvs, CommandOutcome::Applied))
                } else {
                    skip
                },
                AnimOp::ResetAttacks => match c.weapon {
                    None => skip,
                    Some(w) => if w >= hcap {
                        None
                    } else if !hvs.contains_key(w) {
                        skip
                    } else {
                        let h = hvs[w];
                        Some((avs, hvs.insert(w, (h.1, h.1, h.2, h.3)), CommandOutcome::Applied))
                    },
                },
                AnimOp::SetAnimFromString(action) => match c.weapon {
                    None => skip,
                    Some(w) => if w >= hcap {
                        None
                    } else if !hvs.contains_key(w) {
                        skip
                    } else if w >= abcap {
                        None
                    } else if !abil.contains_key(w) {
                        skip
                    } else {
                        match spec_action_from_name(action@) {
                            None => None,
                            Some(act) => {
                                let h = hvs[w];
                                let hvs2 = if act is Basic {
                                    hvs.insert(w, (turned(h.0), h.1, h.2, h.3))
                                } else {
                                    hvs
                                };
                                match action_target(act, h, abil[w], aclips) {
                                    None => None,
                                    Some(None) => Some((avs, hvs2, CommandOutcome::Skipped)),
                                    Some(Some(t)) => {
                                        let (sel, fx) = request_next(a, t);
                                        Some(
                                            (
                                                avs.insert(c.target, (sel, a.1)),
                                                hvs2,
                                                CommandOutcome::NextRequested(fx),
                                            ),
                                        )
                                    },
                                }
                            },
                        }
                    },
                },
            }
        }
    }
}

fn find_clip(clips: &Vec<ClipFlags>, t: AnimationType) -> (r: Option<usize>)
    ensures
        r matches Some(i) ==> is_first_clip(clips@, t, i as int) && first_clip(clips@, t) == i,
        r is None <==> !has_clip(clips@, t),
{
    let mut i: usize = 0;
    while i < clips.len()
        invariant
            i <= clips@.len(),
            forall|j: int| 0 <= j < i ==> (#[trigger] clips@[j]).name != t,
        decreases clips@.len() - i,
    {
        if clips[i].name == t {
            proof {
                assert(is_first_clip(clips@, t, i as int));
                let c = first_clip(clips@, t);
                assert(is_first_clip(clips@, t, c));
                if c < i {
                    assert(clips@[c].name != t);
                } else if c > i {
                    assert(clips@[i as int].name != t);
                }
            }
            return Some(i);
        }
        i = i + 1;
    }
    None
}

fn find_ability_clip(pairs: &Vec<(AbilityId, AnimationType)>, id: AbilityId) -> (r: Option<AnimationType>)
    ensures
        r == ability_clip(pairs@, id),
{
    let mut i: usize = 0;
    while i < pairs.len()
        invariant
            i <= pairs@.len(),
            forall|j: int| 0 <= j < i ==> (#[trigger] pairs@[j]).0 != id,
        decreases pairs@.len() - i,
    {
        if pairs[i].0 == id {
            proof {
                assert(is_first_entry(pairs@, id, i as int));
                let c = choose|k: int| is_first_entry(pairs@, id, k);
                assert(is_first_entry(pairs@, id, c));
                if c < i {
                    assert(pairs@[c].0 != id);
                } else if c > i {
                    assert(pairs@[i as int].0 != id);
                }
            }
            return Some(pairs[i].1);
        }
        i = i + 1;
    }
    None
}

fn request(animators: &mut SparseSet<AnimatorState>, target: usize, t: AnimationType) -> (fx: NextAnimationEffects)
    requires
        old(animators).wf(),
        target < old(animators).spec_capacity(),
        old(animators)@.contains_key(target),
    ensures
        final(animators).wf(),
        final(animators).spec_capacity() == old(animators).spec_capacity(),
        ({
            let a = animator_views(old(animators)@)[target];
            &&& fx == request_next(a, t).1
            &&& animator_views(final(animators)@) == animator_views(old(animators)@).insert(
                target,
                (request_next(a, t).0, a.1),
            )
        }),
{
    let ghost old_map = animators@;
    match animators.get_mut(target) {
        Some(a) => {
            let idx = find_clip(&a.clips, t);
            let has = idx.is_some();
            let resets = match idx {
                Some(i) => a.clips[i].reset_on_change,
                None => false,
            };
            let fx = a.selection.set_next_animation(t, has, resets);
            proof {
                assert(animator_views(animators@) =~= animator_views(old_map).insert(
                    target,
                    (request_next((old_map[target].selection, old_map[target].clips@), t).0, old_map[target].clips@),
                ));
            }
            fx
        },
        None => {
            proof {
                assert(false);
            }
            NextAnimationEffects { restart_blend: false, rewind_clip: false }
        },
    }
}

fn set_hold(animators: &mut SparseSet<AnimatorState>, target: usize, t: AnimationType, hold: bool) -> (done: bool)
    requires
        old(animators).wf(),
        target < old(animators).spec_capacity(),
        old(animators)@.contains_key(target),
    ensures
        final(animators).wf(),
        final(animators).spec_capacity() == old(animators).spec_capacity(),
        ({
            let a = animator_views(old(animators)@)[target];
            &&& done == has_clip(a.1, t)
            &&& done ==> animator_views(final(animators)@) == animator_views(old(animators)@).insert(
                target,
                (a.0, with_hold(a.1, t, hold)),
            )
            &&& !done ==> animator_views(final(animators)@) == animator_views(old(animators)@)
        }),
{
    let ghost old_map = animators@;
    match animators.get_mut(target) {
        Some(a) => {
            match find_clip(&a.clips, t) {
                Some(i) => {
                    let old_clip = a.clips[i];
                    a.clips.set(i, ClipFlags { name: old_clip.name, reset_on_change: old_clip.reset_on_change, do_hold: hold });
                    proof {
                        let oa = old_map[target];
                        assert(a.clips@ =~= with_hold(oa.clips@, t, hold));
                        assert(animator_views(animators@) =~= animator_views(old_map).insert(
                            target,
                            (oa.selection, with_hold(oa.clips@, t, hold)),
                        ));
                    }
                    true
                },
                None => {
                    proof {
                        assert(animator_views(animators@) =~= animator_views(old_map));
                    }
                    false
                },
            }
        },
        None => {
            proof {
                assert(false);
            }
            false
        },
    }
}

/// Carries out one animation command; None where the game stops, leaving the
/// animators and the helpers as they were.
fn apply_command(
    c: &AnimCmd,
    animators: &mut SparseSet<AnimatorState>,
    helpers: &mut SparseSet<WeaponActionsHelper>,
    abilities: &SparseSet<WeaponAbilities>,
    aclips: &Vec<(AbilityId, AnimationType)>,
) -> (r: Option<CommandOutcome>)
    requires
        old(animators).wf(),
        old(helpers).wf(),
        abilities.wf(),
    ensures
        final(animators).wf(),
        final(helpers).wf(),
        final(animators).spec_capacity() == old(animators).spec_capacity(),
        final(helpers).spec_capacity() == old(helpers).spec_capacity(),
        match anim_step(
            animator_views(old(animators)@),
            helper_views(old(helpers)@),
            old(animators).spec_capacity(),
            old(helpers).spec_capacity(),
            abilities@,
            abilities.spec_capacity(),
            aclips@,
            *c,
        ) {
            None => r is None && animator_views(final(animators)@) == animator_views(old(animators)@)
                && helper_views(final(helpers)@) == helper_views(old(helpers)@),
            Some((av, hv, o)) => r == Some(o) && animator_views(final(animators)@) == av
                && helper_views(final(helpers)@) == hv,
        },
{
    let ghost avs = animator_views(animators@);
    let ghost hvs = helper_views(helpers@);
    let target = c.target;
    if target >= animators.capacity() {
        return None;
    }
    let (has_next, has_cur) = match animators.get(target) {
        None => {
            return Some(CommandOutcome::Skipped);
        },
        Some(a) => {
            let n = find_clip(&a.clips, a.selection.next_animation);
            let cu = find_clip(&a.clips, a.selection.current_animation);
            (n.is_some(), cu.is_some())
        },
    };
    if !has_next || !has_cur {
        return Some(CommandOutcome::Skipped);
    }
    match &c.op {
        AnimOp::SetNextAnimation(t) => {
            let fx = request(animators, target, *t);
            Some(CommandOutcome::NextRequested(fx))
        },
        AnimOp::SetCurrentAnimation(t) => {
            let ghost old_map = animators@;
            match animators.get_mut(target) {
                Some(a) => {
                    a.selection.set_current_animation(*t);
                },
                None => {},
            }
            proof {
                let oa = old_map[target];
                assert(animator_views(animators@) =~= avs.insert(
                    target,
                    (AnimationSelection { current_animation: *t, next_animation: oa.selection.next_animation }, oa.clips@),
                ));
            }
            Some(CommandOutcome::Applied)
        },
        AnimOp::DoHold(t) => {
            if set_hold(animators, target, *t, true) {
                Some(CommandOutcome::Applied)
            } else {
                Some(CommandOutcome::Skipped)
            }
        },
        AnimOp::StopHold(t) => {
            if set_hold(animators, target, *t, false) {
                Some(CommandOutcome::Applied)
            } else {
                Some(CommandOutcome::Skipped)
            }
        },
        AnimOp::ResetAttacks => {
            let w = match c.weapon {
                None => {
                    return Some(CommandOutcome::Skipped);
                },
                Some(w) => w,
            };
            if w >= helpers.capacity() {
                return None;
            }
            let ghost old_h = helpers@;
            match helpers.get_mut(w) {
                None => Some(CommandOutcome::Skipped),
                Some(h) => {
                    h.reset_attacks();
                    proof {
                        let oh = old_h[w];
                        assert(helper_views(helpers@) =~= hvs.insert(
                            w,
                            (oh.basic_chain_default@, oh.basic_chain_default@, oh.dash, oh.block),
                        ));
                    }
                    Some(CommandOutcome::Applied)
                },
            }
        },
        AnimOp::SetAnimFromString(action) => {
            let w = match c.weapon {
                None => {
                    return Some(CommandOutcome::Skipped);
                },
                Some(w) => w,
            };
            if w >= helpers.capacity() {
                return None;
            }
            if !helpers.contains(w) {
                return Some(CommandOutcome::Skipped);
            }
            if w >= abilities.capacity() {
                return None;
            }
            let ab: WeaponAbilities = match abilities.get(w) {
                None => {
                    return Some(CommandOutcome::Skipped);
                },
                Some(ab) => *ab,
            };
            let act = match WeaponAction::from_name(action.as_str()) {
                None => {
                    return None;
                },
                Some(act) => act,
            };
            let clip: Option<AnimationType> = match helpers.get(w) {
                None => {
                    return None;
                },
                Some(h) => match act {
                    WeaponAction::Basic => {
                        if h.basic_chain.len() == 0 {
                            return None;
                        }
                        match AnimationType::try_from_name(h.basic_chain[0].as_str()) {
                            None => {
                                return None;
                            },
                            Some(t) => Some(t),
                        }
                    },
                    WeaponAction::Dash => match AnimationType::try_from_name(h.dash.as_str()) {
                        None => {
                            return None;
                        },
                        Some(t) => Some(t),
                    },
                    WeaponAction::Block => match AnimationType::try_from_name(h.block.as_str()) {
                        None => {
                            return None;
                        },
                        Some(t) => Some(t),
                    },
                    _ => {
                        let slot = match act {
                            WeaponAction::Skill1 => ab.q,
                            WeaponAction::Skill2 => ab.e,
                            _ => ab.r,
                        };
                        match slot {
                            None => None,
                            Some(id) => match find_ability_clip(aclips, id) {
                                None => {
                                    return None;
                                },
                                Some(t) => Some(t),
                            },
                        }
                    },
                },
            };
            if act == WeaponAction::Basic {
                let ghost old_h = helpers@;
                match helpers.get_mut(w) {
                    Some(h) => {
                        let _ = h.clip_for_action(WeaponAction::Basic, &ab);
                    },
                    None => {},
                }
                proof {
                    let oh = old_h[w];
                    assert(helper_views(helpers@) =~= hvs.insert(
                        w,
                        (turned(oh.basic_chain@), oh.basic_chain_default@, oh.dash, oh.block),
                    ));
                }
            }
            match clip {
                None => Some(CommandOutcome::Skipped),
                Some(t) => {
                    let fx = request(animators, target, t);
                    Some(CommandOutcome::NextRequested(fx))
                },
            }
        },
    }
}

/// Carrying out the commands `cmds` in order: the animators, the helpers and the
/// outcomes of the commands carried out, and whether the pass went through all of
/// them (false where the game stops at a command).
pub open spec fn anim_run(
    avs: Map<usize, AnimatorView>,
    hvs: Map<usize, HelperView>,
    acap: nat,
    hcap: nat,
    abil: Map<usize, WeaponAbilities>,
    abcap: nat,
    aclips: Seq<(AbilityId, AnimationType)>,
    cmds: Seq<AnimCmd>,
) -> (Map<usize, AnimatorView>, Map<usize, HelperView>, Seq<CommandOutcome>, bool)
    decreases cmds.len(),
{
    if cmds.len() == 0 {
        (avs, hvs, Seq::empty(), true)
    } else {
        let (a, h, outs, ok) = anim_run(avs, hvs, acap, hcap, abil, abcap, aclips, cmds.drop_last());
        if !ok {
            (a, h, outs, false)
        } else {
            match anim_step(a, h, acap, hcap, abil, abcap, aclips, cmds.last()) {
                None => (a, h, outs, false),
                Some((a2, h2, o)) => (a2, h2, outs.push(o), true),
            }
        }
    }
}

/// Carries out the animation commands queued in `cmds`, in order, and empties the
/// queue. Returns the outcome of each command; None where the game stops at a
/// command, with the commands before it carried out.
pub fn apply_anim_commands(
    cmds: &mut Vec<AnimCmd>,
    animators: &mut SparseSet<AnimatorState>,
    helpers: &mut SparseSet<WeaponActionsHelper>,
    abilities: &SparseSet<WeaponAbilities>,
    aclips: &Vec<(AbilityId, AnimationType)>,
) -> (r: Option<Vec<CommandOutcome>>)
    requires
        old(animators).wf(),
        old(helpers).wf(),
        abilities.wf(),
    ensures
        final(cmds)@ == Seq::<AnimCmd>::empty(),
        final(animators).wf(),
        final(helpers).wf(),
        final(animators).spec_capacity() == old(animators).spec_capacity(),
        final(helpers).spec_capacity() == old(helpers).spec_capacity(),
        ({
            let run = anim_run(
                animator_views(old(animators)@),
                helper_views(old(helpers)@),
                old(animators).spec_capacity(),
                old(helpers).spec_capacity(),
                abilities@,
                abilities.spec_capacity(),
                aclips@,
                old(cmds)@,
            );
            &&& animator_views(final(animators)@) == run.0
            &&& helper_views(final(helpers)@) == run.1
            &&& run.3 ==> (r matches Some(v) && v@ == run.2)
            &&& !run.3 ==> r is None
        }),
{
    let ghost av0 = animator_views(animators@);
    let ghost hv0 = helper_views(helpers@);
    let ghost acap = animators.spec_capacity();
    let ghost hcap = helpers.spec_capacity();
    let ghost all = cmds@;
    let mut outs: Vec<CommandOutcome> = Vec::new();
    let mut i: usize = 0;
    while i < cmds.len()
        invariant
            cmds@ == all,
            all == old(cmds)@,
            av0 == animator_views(old(animators)@),
            hv0 == helper_views(old(helpers)@),
            acap == old(animators).spec_capacity(),
            hcap == old(helpers).spec_capacity(),
            abilities.wf(),
            animators.wf(),
            helpers.wf(),
            animators.spec_capacity() == acap,
            helpers.spec_capacity() == hcap,
            i <= all.len(),
            ({
                let run = anim_run(av0, hv0, acap, hcap, abilities@, abilities.spec_capacity(), aclips@, all.take(i as int));
                &&& run.3
                &&& animator_views(animators@) == run.0
                &&& helper_views(helpers@) == run.1
                &&& outs@ == run.2
            }),
        decreases all.len() - i,
    {
        proof {
            assert(all.take(i + 1).drop_last() =~= all.take(i as int));
            assert(all.take(i + 1).last() == all[i as int]);
        }
        let r = apply_command(&cmds[i], animators, helpers, abilities, aclips);
        match r {
            None => {
                proof {
                    lemma_run_stays_stopped(av0, hv0, acap, hcap, abilities@, abilities.spec_capacity(), aclips@, all, i + 1);
                }
                cmds.clear();
                return None;
            },
            Some(o) => {
                outs.push(o);
            },
        }
        i = i + 1;
    }
    assert(all.take(all.len() as int) =~= all);
    cmds.clear();
    Some(outs)
}

/// Once the pass has stopped at a command, the commands after it change nothing.
proof fn lemma_run_stays_stopped(
    avs: Map<usize, AnimatorView>,
    hvs: Map<usize, HelperView>,
    acap: nat,
    hcap: nat,
    abil: Map<usize, WeaponAbilities>,
    abcap: nat,
    aclips: Seq<(AbilityId, AnimationType)>,
    cmds: Seq<AnimCmd>,
    n: int,
)
    requires
        0 <= n <= cmds.len(),
        !anim_run(avs, hvs, acap, hcap, abil, abcap, aclips, cmds.take(n)).3,
    ensures
        anim_run(avs, hvs, acap, hcap, abil, abcap, aclips, cmds) == anim_run(
            avs,
            hvs,
            acap,
            hcap,
            abil,
            abcap,
            aclips,
            cmds.take(n),
        ),
    decreases cmds.len() - n,
{
    if n < cmds.len() {
        assert(cmds.take(n + 1).drop_last() =~= cmds.take(n));
        lemma_run_stays_stopped(avs, hvs, acap, hcap, abil, abcap, aclips, cmds, n + 1);
    } else {
        assert(cmds.take(n) =~= cmds);
    }
}

} // verus!

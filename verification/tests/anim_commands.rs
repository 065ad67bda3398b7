use spaghetti_engine::abilities::WeaponAbilities;
use spaghetti_engine::anim_commands::{apply_anim_commands, AnimatorState, ClipFlags, CommandOutcome};
use spaghetti_engine::animation::{AnimationSelection, NextAnimationEffects};
use spaghetti_engine::command_buffer::{AnimCmd, AnimOp};
use spaghetti_engine::config::WeaponActionsHelper;
use spaghetti_engine::enums_types::AnimationType;
use spaghetti_engine::sparse_set::SparseSet;

fn clip(name: AnimationType, reset_on_change: bool) -> ClipFlags {
    ClipFlags { name, reset_on_change, do_hold: false }
}

fn setup() -> (SparseSet<AnimatorState>, SparseSet<WeaponActionsHelper>, SparseSet<WeaponAbilities>) {
    let mut animators = SparseSet::with_capacity(10);
    animators.insert(
        0,
        AnimatorState {
            selection: AnimationSelection { current_animation: AnimationType::Idle, next_animation: AnimationType::Idle },
            clips: vec![
                clip(AnimationType::Idle, false),
                clip(AnimationType::Run, true),
                clip(AnimationType::Slash, true),
                clip(AnimationType::Basic1, true),
            ],
        },
    );
    let mut helpers = SparseSet::with_capacity(10);
    let chain = vec!["Basic1".to_string(), "Basic2".to_string()];
    helpers.insert(
        5,
        WeaponActionsHelper {
            basic_chain: chain.clone(),
            basic_chain_default: chain,
            dash: "DashF".to_string(),
            block: "Block".to_string(),
        },
    );
    let mut abilities = SparseSet::with_capacity(10);
    abilities.insert(5, WeaponAbilities { m1: None, m2: None, q: Some(7), e: None, shift: None, r: Some(8) });
    (animators, helpers, abilities)
}

fn cmd(target: usize, weapon: Option<usize>, op: AnimOp) -> AnimCmd {
    AnimCmd { target, weapon, op }
}

#[test]
fn commands_are_carried_out_in_order() {
    let (mut animators, mut helpers, abilities) = setup();
    let aclips = vec![(7, AnimationType::Roll)];
    let mut cmds = vec![
        cmd(0, None, AnimOp::SetNextAnimation(AnimationType::Run)),
        cmd(0, None, AnimOp::DoHold(AnimationType::Slash)),
        cmd(0, None, AnimOp::DoHold(AnimationType::Jump)),
        cmd(9, None, AnimOp::SetCurrentAnimation(AnimationType::Run)),
        cmd(0, Some(5), AnimOp::SetAnimFromString("basic".to_string())),
        cmd(0, Some(5), AnimOp::SetAnimFromString("skill2".to_string())),
        cmd(0, Some(5), AnimOp::SetAnimFromString("skill1".to_string())),
        cmd(0, None, AnimOp::ResetAttacks),
        cmd(0, Some(3), AnimOp::ResetAttacks),
    ];
    let outs = apply_anim_commands(&mut cmds, &mut animators, &mut helpers, &abilities, &aclips).unwrap();
    assert!(cmds.is_empty());
    let fx = |restart_blend, rewind_clip| CommandOutcome::NextRequested(NextAnimationEffects { restart_blend, rewind_clip });
    assert_eq!(
        outs,
        vec![
            fx(true, true),
            CommandOutcome::Applied,
            CommandOutcome::Skipped,
            CommandOutcome::Skipped,
            fx(true, true),
            CommandOutcome::Skipped,
            fx(true, false),
            CommandOutcome::Skipped,
            CommandOutcome::Skipped,
        ]
    );
    let a = animators.get(0).unwrap();
    // Roll is not a clip of the animator, so it blends back into its current clip.
    assert_eq!(a.selection.next_animation, AnimationType::Idle);
    assert!(a.clips[2].do_hold);
    assert_eq!(helpers.get(5).unwrap().basic_chain, vec!["Basic2".to_string(), "Basic1".to_string()]);
}

#[test]
fn resetting_attacks_restores_the_chain() {
    let (mut animators, mut helpers, abilities) = setup();
    let mut cmds = vec![
        cmd(0, Some(5), AnimOp::SetAnimFromString("basic".to_string())),
        cmd(0, Some(5), AnimOp::ResetAttacks),
        cmd(0, None, AnimOp::SetCurrentAnimation(AnimationType::Run)),
        cmd(0, None, AnimOp::StopHold(AnimationType::Run)),
    ];
    let outs = apply_anim_commands(&mut cmds, &mut animators, &mut helpers, &abilities, &vec![]).unwrap();
    assert_eq!(outs[1], CommandOutcome::Applied);
    assert_eq!(helpers.get(5).unwrap().basic_chain, vec!["Basic1".to_string(), "Basic2".to_string()]);
    let a = animators.get(0).unwrap();
    assert_eq!(a.selection.current_animation, AnimationType::Run);
    assert_eq!(a.selection.next_animation, AnimationType::Basic1);
}

#[test]
fn the_pass_stops_where_the_game_stops() {
    let (mut animators, mut helpers, abilities) = setup();
    let mut cmds = vec![
        cmd(0, None, AnimOp::SetNextAnimation(AnimationType::Run)),
        cmd(0, Some(5), AnimOp::SetAnimFromString("jump".to_string())),
        cmd(0, None, AnimOp::SetNextAnimation(AnimationType::Slash)),
    ];
    assert!(apply_anim_commands(&mut cmds, &mut animators, &mut helpers, &abilities, &vec![]).is_none());
    assert!(cmds.is_empty());
    assert_eq!(animators.get(0).unwrap().selection.next_animation, AnimationType::Run);
    let mut unknown_ability = vec![cmd(0, Some(5), AnimOp::SetAnimFromString("ultimate".to_string()))];
    assert!(apply_anim_commands(&mut unknown_ability, &mut animators, &mut helpers, &abilities, &vec![]).is_none());
    let mut beyond = vec![cmd(10, None, AnimOp::ResetAttacks)];
    assert!(apply_anim_commands(&mut beyond, &mut animators, &mut helpers, &abilities, &vec![]).is_none());
}

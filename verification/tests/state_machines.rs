use spaghetti_engine::enums_types::{AnimationType, ControlState, SoundType};
use spaghetti_engine::state_machines::{
    attack_animation, can_loco, enemy_step, entry_animation, player_step, AnimatorAction, AttackState,
    ClipFacts, CurrentClipFacts, Destination, EnemyFacts, PlayerFacts, PlayerState, SimState, TimeUpdate,
};

fn clip() -> ClipFacts {
    ClipFacts { finished: false, finished_from_start: false, segment: 0 }
}

fn enemy() -> EnemyFacts {
    EnemyFacts {
        health_depleted: false,
        is_moose_man: false,
        flinch_pending: false,
        can_see_player: false,
        within_aggro_range: false,
        within_weapon_length: false,
        flinch_time_elapsed: false,
        dying_time_elapsed: false,
        current_animation: AnimationType::Idle,
        has_attack_clips: true,
        has_idle_clip: true,
        holds_weapon: false,
        slash: clip(),
        slash2: clip(),
    }
}

fn player() -> PlayerFacts {
    PlayerFacts {
        right_mouse_down: false,
        left_mouse_just_pressed: false,
        space_just_pressed: false,
        left_shift_down: false,
        wasd_down: false,
        falling: false,
        settled: false,
        rising_done: false,
        grounded: true,
        dust_due: false,
        current_animation: AnimationType::Idle,
        clip: CurrentClipFacts { segment: 0, finished: false, hold_frame: None },
        has_jump_clip: true,
        has_freefall_clip: true,
        has_slash_clip: true,
        has_slash2_clip: true,
        knockback_needs_blood: false,
    }
}

#[test]
fn only_the_player_control_state_moves_on_its_own() {
    assert!(can_loco(ControlState::Player));
    assert!(!can_loco(ControlState::Combat));
    assert!(!can_loco(ControlState::Locked));
}

#[test]
fn entry_and_attack_clips() {
    assert_eq!(entry_animation(SimState::Aggro), AnimationType::Run);
    assert_eq!(entry_animation(SimState::Combat), AnimationType::Slash);
    assert_eq!(entry_animation(SimState::Flinching), AnimationType::Flinch);
    assert_eq!(entry_animation(SimState::Dancing), AnimationType::Dance);
    assert_eq!(attack_animation(AttackState::Attack1), AnimationType::Slash);
    assert_eq!(attack_animation(AttackState::Attack2), AnimationType::Slash2);
}

#[test]
fn enemy_with_no_health_starts_dying() {
    let f = EnemyFacts { health_depleted: true, ..enemy() };
    let r = enemy_step(SimState::Combat, AttackState::Attack2, &f);
    assert_eq!(r.state, SimState::Dying);
    assert_eq!(r.attack_state, AttackState::Attack1);
    assert_eq!(r.time, TimeUpdate::Reset);
    assert_eq!(r.animator, vec![AnimatorAction::SetNext(AnimationType::Idle)]);
}

#[test]
fn dying_enemy_stays_dying_until_its_time_is_up() {
    let f = EnemyFacts { health_depleted: true, holds_weapon: true, ..enemy() };
    let r = enemy_step(SimState::Dying, AttackState::Attack1, &f);
    assert_eq!(r.state, SimState::Dying);
    assert_eq!(r.time, TimeUpdate::Advance);
    assert!(r.enable_rotations);
    assert!(r.drop_weapon);
    let f = EnemyFacts { dying_time_elapsed: true, ..f };
    let r = enemy_step(SimState::Dying, AttackState::Attack1, &f);
    assert_eq!(r.state, SimState::Dead);
}

#[test]
fn dead_enemy_is_despawned() {
    let r = enemy_step(SimState::Dead, AttackState::Attack1, &enemy());
    assert_eq!(r.state, SimState::Dead);
    assert!(r.despawn);
}

#[test]
fn new_enemy_waits_and_a_moose_man_dances() {
    let r = enemy_step(SimState::Init, AttackState::Attack1, &enemy());
    assert_eq!(r.state, SimState::Waiting);
    assert_eq!(
        r.animator,
        vec![AnimatorAction::SetNext(AnimationType::Idle), AnimatorAction::RestartClip(AnimationType::Idle)]
    );
    let f = EnemyFacts { is_moose_man: true, ..enemy() };
    let r = enemy_step(SimState::Init, AttackState::Attack1, &f);
    assert_eq!(r.state, SimState::Dancing);
    let r = enemy_step(SimState::Dancing, AttackState::Attack1, &f);
    assert_eq!(r.state, SimState::Dancing);
    assert!(r.animator.is_empty());
}

#[test]
fn waiting_enemy_that_sees_the_player_gives_chase() {
    let f = EnemyFacts { can_see_player: true, within_aggro_range: true, ..enemy() };
    let r = enemy_step(SimState::Waiting, AttackState::Attack1, &f);
    assert_eq!(r.state, SimState::Aggro);
    assert_eq!(r.animator, vec![AnimatorAction::SetNext(AnimationType::Run)]);
    let r = enemy_step(SimState::Waiting, AttackState::Attack1, &enemy());
    assert_eq!(r.state, SimState::Waiting);
    assert_eq!(r.destination, Destination::OwnPosition);
}

#[test]
fn chasing_enemy_engages_in_reach_and_gives_up_out_of_range() {
    let f = EnemyFacts { within_aggro_range: true, within_weapon_length: true, ..enemy() };
    let r = enemy_step(SimState::Aggro, AttackState::Attack1, &f);
    assert_eq!(r.state, SimState::Combat);
    assert_eq!(r.destination, Destination::PlayerPosition);
    assert_eq!(r.animator, vec![AnimatorAction::SetNext(AnimationType::Slash)]);
    let r = enemy_step(SimState::Aggro, AttackState::Attack1, &enemy());
    assert_eq!(r.state, SimState::Waiting);
}

#[test]
fn finished_first_attack_in_reach_chains_into_the_second() {
    let f = EnemyFacts {
        within_aggro_range: true,
        within_weapon_length: true,
        current_animation: AnimationType::Slash,
        slash: ClipFacts { finished: true, finished_from_start: false, segment: 30 },
        ..enemy()
    };
    let r = enemy_step(SimState::Combat, AttackState::Attack1, &f);
    assert_eq!(r.state, SimState::Combat);
    assert_eq!(r.attack_state, AttackState::Attack2);
    assert_eq!(
        r.animator,
        vec![AnimatorAction::RestartClip(AnimationType::Slash2), AnimatorAction::SetNext(AnimationType::Slash2)]
    );
    let f = EnemyFacts { within_weapon_length: false, ..f };
    let r = enemy_step(SimState::Combat, AttackState::Attack1, &f);
    assert_eq!(r.state, SimState::Aggro);
}

#[test]
fn pending_flinch_interrupts_combat() {
    let f = EnemyFacts { flinch_pending: true, ..enemy() };
    let r = enemy_step(SimState::Combat, AttackState::Attack2, &f);
    assert_eq!(r.state, SimState::Flinching);
    assert_eq!(r.attack_state, AttackState::Attack1);
    assert!(r.clear_flinch);
    assert_eq!(
        r.animator,
        vec![
            AnimatorAction::SetNext(AnimationType::Flinch),
            AnimatorAction::RestartClip(AnimationType::Slash),
            AnimatorAction::RestartClip(AnimationType::Slash2),
        ]
    );
}

#[test]
fn idle_player_jumps_dashes_attacks_and_blocks() {
    let f = PlayerFacts { space_just_pressed: true, ..player() };
    let r = player_step(PlayerState::Idle, AttackState::Attack1, &f);
    assert_eq!(r.state, PlayerState::Jumping);
    assert!(r.jump_impulse);
    assert!(!r.dash_impulse);

    let f = PlayerFacts { space_just_pressed: true, left_shift_down: true, ..player() };
    let r = player_step(PlayerState::Idle, AttackState::Attack1, &f);
    assert_eq!(r.state, PlayerState::Dashing);
    assert!(r.dash_impulse);

    let f = PlayerFacts { left_mouse_just_pressed: true, ..player() };
    let r = player_step(PlayerState::Idle, AttackState::Attack1, &f);
    assert_eq!(r.state, PlayerState::Attacking);
    assert_eq!(
        r.animator,
        vec![
            AnimatorAction::SetNext(AnimationType::Idle),
            AnimatorAction::RestartClip(AnimationType::Slash),
            AnimatorAction::SetNext(AnimationType::Slash),
        ]
    );

    let f = PlayerFacts { right_mouse_down: true, knockback_needs_blood: true, ..player() };
    let r = player_step(PlayerState::Idle, AttackState::Attack1, &f);
    assert_eq!(r.state, PlayerState::Blocking);
    assert!(!r.blood);
}

#[test]
fn idle_player_starts_running_with_a_sound() {
    let f = PlayerFacts { wasd_down: true, knockback_needs_blood: true, ..player() };
    let r = player_step(PlayerState::Idle, AttackState::Attack1, &f);
    assert_eq!(r.state, PlayerState::Running);
    assert_eq!(r.sound, Some(SoundType::Jump));
    assert!(r.blood);
}

#[test]
fn second_click_in_the_window_chains_the_second_attack() {
    let f = PlayerFacts {
        left_mouse_just_pressed: true,
        current_animation: AnimationType::Slash,
        clip: CurrentClipFacts { segment: 15, finished: false, hold_frame: None },
        ..player()
    };
    let r = player_step(PlayerState::Attacking, AttackState::Attack1, &f);
    assert_eq!(r.state, PlayerState::Attacking);
    assert_eq!(r.attack_state, AttackState::Attack2);
    let f = PlayerFacts { clip: CurrentClipFacts { segment: 5, finished: false, hold_frame: None }, ..f };
    let r = player_step(PlayerState::Attacking, AttackState::Attack1, &f);
    assert_eq!(r.attack_state, AttackState::Attack1);
    assert!(r.animator.is_empty());
}

use spaghetti_engine::controls::{dropped_asset_kind, next_camera_state, show_in_game_hud, DroppedAsset};
use spaghetti_engine::enums_types::CameraState;

#[test]
fn f_steps_through_the_camera_modes() {
    assert_eq!(next_camera_state(CameraState::Free, true), CameraState::Third);
    assert_eq!(next_camera_state(CameraState::Free, false), CameraState::Locked);
    assert_eq!(next_camera_state(CameraState::Third, true), CameraState::Locked);
    assert_eq!(next_camera_state(CameraState::Locked, true), CameraState::Gallery);
    assert_eq!(next_camera_state(CameraState::Gallery, false), CameraState::Free);
}

#[test]
fn four_presses_come_round_with_a_player() {
    let mut s = CameraState::Third;
    for _ in 0..4 {
        s = next_camera_state(s, true);
    }
    assert_eq!(s, CameraState::Third);
    let mut t = CameraState::Free;
    for _ in 0..3 {
        t = next_camera_state(t, false);
    }
    assert_eq!(t, CameraState::Free);
}

#[test]
fn hud_shows_only_in_play_with_a_player() {
    assert!(show_in_game_hud(true, false, CameraState::Third, true));
    assert!(!show_in_game_hud(true, true, CameraState::Third, true));
    assert!(!show_in_game_hud(true, false, CameraState::Gallery, true));
    assert!(!show_in_game_hud(true, false, CameraState::Free, false));
    assert!(!show_in_game_hud(false, false, CameraState::Free, true));
}

#[test]
fn dropped_files_are_sorted_by_extension() {
    assert_eq!(dropped_asset_kind("txt"), Some(DroppedAsset::Mesh));
    assert_eq!(dropped_asset_kind("png"), Some(DroppedAsset::Picture));
    assert_eq!(dropped_asset_kind("jpg"), Some(DroppedAsset::Picture));
    assert_eq!(dropped_asset_kind("jpeg"), Some(DroppedAsset::Picture));
    assert_eq!(dropped_asset_kind("PNG"), None);
    assert_eq!(dropped_asset_kind("obj"), None);
}

//! The game's window controls: the camera mode that the F key steps through, when the
//! in-game HUD shows, and which editor field a file dropped on the window fills.
use crate::enums_types::{str_eq, CameraState};
use vstd::prelude::*;

verus! {

/// The camera mode after F is pressed in mode `state`: free, then third person when
/// there is a player to follow (else locked), then locked, then the gallery, then free
/// again.
pub open spec fn spec_next_camera_state(state: CameraState, has_player: bool) -> CameraState {
    match state {
        CameraState::Free => if has_player {
            CameraState::Third
        } else {
            CameraState::Locked
        },
        CameraState::Third => CameraState::Locked,
        CameraState::Locked => CameraState::Gallery,
        CameraState::Gallery => CameraState::Free,
    }
}

/// The camera mode after F is pressed in mode `state`, given whether a player exists.
pub fn next_camera_state(state: CameraState, has_player: bool) -> (r: CameraState)
    ensures
        r == spec_next_camera_state(state, has_player),
{
    match state {
        CameraState::Free => if has_player {
            CameraState::Third
        } else {
            CameraState::Locked
        },
        CameraState::Third => CameraState::Locked,
        CameraState::Locked => CameraState::Gallery,
        CameraState::Gallery => CameraState::Free,
    }
}

/// The camera mode after F is pressed `n` times.
pub open spec fn camera_after_presses(state: CameraState, has_player: bool, n: nat) -> CameraState
    decreases n,
{
    if n == 0 {
        state
    } else {
        spec_next_camera_state(camera_after_presses(state, has_player, (n - 1) as nat), has_player)
    }
}

/// F steps round the camera modes: with a player to follow, four presses bring any
/// mode back; without one, three presses bring back every mode but third person,
/// which is left for good after one press.
pub proof fn lemma_camera_modes_come_round(state: CameraState, has_player: bool)
    ensures
        has_player ==> camera_after_presses(state, has_player, 4) == state,
        !has_player && state != CameraState::Third ==> camera_after_presses(state, has_player, 3)
            == state,
        !has_player ==> forall|n: nat|
            n >= 1 ==> #[trigger] camera_after_presses(state, has_player, n) != CameraState::Third,
{
    reveal_with_fuel(camera_after_presses, 5);
    if !has_player {
        assert forall|n: nat| n >= 1 implies #[trigger] camera_after_presses(state, has_player, n)
            != CameraState::Third by {
            let prev = camera_after_presses(state, has_player, (n - 1) as nat);
            assert(camera_after_presses(state, has_player, n) == spec_next_camera_state(
                prev,
                has_player,
            ));
        }
    }
}

/// Whether the in-game HUD shows: the UI is built in, the game runs, the camera is
/// not in the gallery, and there is a player.
pub fn show_in_game_hud(ui_enabled: bool, paused: bool, camera: CameraState, has_player: bool) -> (b:
    bool)
    ensures
        b == (ui_enabled && !paused && camera != CameraState::Gallery && has_player),
{
    ui_enabled && !paused && camera != CameraState::Gallery && has_player
}

/// What a file dropped on the window is taken for in the editors.
#[derive(Debug, Clone, Copy, PartialEq, Eq, Structural)]
pub enum DroppedAsset {
    /// a mesh file: it becomes the new entity type's mesh
    Mesh,
    /// a picture: it becomes the new entity type's texture, the staged particle
    /// texture and the staged ability icon
    Picture,
}

/// The kind of a dropped file with extension `ext`, if the editors take it.
pub open spec fn spec_dropped_asset(ext: Seq<char>) -> Option<DroppedAsset> {
    if ext == "txt"@ {
        Some(DroppedAsset::Mesh)
    } else if ext == "png"@ || ext == "jpg"@ || ext == "jpeg"@ {
        Some(DroppedAsset::Picture)
    } else {
        None
    }
}

/// The kind of a dropped file with extension `ext` (without its dot), if the editors
/// take it.
pub fn dropped_asset_kind(ext: &str) -> (r: Option<DroppedAsset>)
    ensures
        r == spec_dropped_asset(ext@),
{
    if str_eq(ext, "txt") {
        Some(DroppedAsset::Mesh)
    } else if str_eq(ext, "png") || str_eq(ext, "jpg") || str_eq(ext, "jpeg") {
        Some(DroppedAsset::Picture)
    } else {
        None
    }
}

} // verus!

use spaghetti_engine::archetypes::{idle_clip_props, place_entity_assets};
use spaghetti_engine::enums_types::AnimationType;

#[test]
fn animated_meshes_go_under_animated() {
    let mesh = "ANIMATION_DATA\nBONE: Root\n";
    let p = place_entity_assets("Orc", mesh, "orc.png");
    assert!(p.animated);
    assert_eq!(p.mesh_path, "resources/models/animated/Orc/mesh.txt");
    assert_eq!(p.texture_path, "resources/models/animated/Orc/orc.png");
}

#[test]
fn static_meshes_go_under_static() {
    let mesh = "VERT: 0 0 0\nANIMATION\n";
    let p = place_entity_assets("Crate", mesh, "wood.png");
    assert!(!p.animated);
    assert_eq!(p.mesh_path, "resources/models/static/Crate/mesh.txt");
    assert_eq!(p.texture_path, "resources/models/static/Crate/wood.png");
    assert!(!place_entity_assets("Empty", "", "t.png").animated);
    assert!(place_entity_assets("Mid", "abcANIMATION_DATAxyz", "t.png").animated);
}

#[test]
fn idle_clips_are_found_line_by_line() {
    let mesh = "ANIMATION_DATA\nANIMATION_NAME: Idle\nANIMATION_NAME: Walk\n  ANIMATION_NAME:   Idle  \r\n";
    let props = idle_clip_props(mesh).unwrap();
    assert_eq!(props.len(), 2);
    for p in props.iter() {
        assert_eq!(p.name, AnimationType::Idle);
        assert!(p.one_shots.is_empty());
        assert!(p.continuous_sounds.is_empty());
        assert!(p.hurtbox_activation.is_empty());
        assert_eq!(p.hold_frame, None);
    }
}

#[test]
fn meshes_without_idle_clips_have_no_clip_settings() {
    assert!(idle_clip_props("ANIMATION_DATA\nANIMATION_NAME: Walk\n").is_none());
    assert!(idle_clip_props("").is_none());
    assert!(idle_clip_props("IDLE\nANIMATION_NAME:Idle\n").is_none());
}

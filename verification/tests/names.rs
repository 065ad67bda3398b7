use spaghetti_engine::ability_ids::next_ability_id;
use spaghetti_engine::numbers::parse_u32;
use spaghetti_engine::archetypes::{
    check_new_entity_type, faction_setup, EntityTypeError, FactionSetup, HitboxKind,
};
use spaghetti_engine::combat::{can_hit, is_combatant};
use spaghetti_engine::enums_types::{
    AnimationType, EmitterName, ParseHitboxShapeError, SoundType, TextureProfile, TextureType,
};
use spaghetti_engine::sound::FMOD_STUDIO_STOP_MODE;

const ALL_ANIMATIONS: [AnimationType; 19] = [
    AnimationType::Run,
    AnimationType::Idle,
    AnimationType::Death,
    AnimationType::Dance,
    AnimationType::Slash,
    AnimationType::Slash2,
    AnimationType::Jump,
    AnimationType::Freefall,
    AnimationType::DashF,
    AnimationType::Block,
    AnimationType::Flinch,
    AnimationType::Basic1,
    AnimationType::Basic2,
    AnimationType::Basic3,
    AnimationType::OSBasic1,
    AnimationType::OSBasic2,
    AnimationType::OSBasic3,
    AnimationType::Roll,
    AnimationType::Stagger,
];

#[test]
fn animation_names_round_trip() {
    for a in ALL_ANIMATIONS {
        assert_eq!(AnimationType::from_str(a.as_str()), Some(a));
        assert_eq!(a.to_string(), a.as_str());
    }
    assert_eq!(AnimationType::Slash2.as_str(), "Slash2");
}

#[test]
fn sound_names_round_trip_for_the_parsed_sounds() {
    for s in [SoundType::Footstep, SoundType::MooseHuff, SoundType::Music, SoundType::Bloop] {
        assert_eq!(SoundType::from_str(s.as_str()), Some(s));
    }
    assert_eq!(SoundType::Jump.to_string(), "Jump");
}

#[test]
fn texture_profile_names_round_trip() {
    for p in [TextureProfile::BroadDefault, TextureProfile::DecalCrisp, TextureProfile::AlphaMasked] {
        assert_eq!(TextureProfile::from_str(p.as_str()), Some(p));
    }
}

#[test]
fn texture_and_emitter_names() {
    assert_eq!(TextureType::NormalMap.as_str(), "Normal Map");
    assert_eq!(TextureType::Opacity.to_string(), "Opacity");
    assert_eq!(EmitterName::DamageBlood.as_str(), "DamageBlood");
    assert_eq!(EmitterName::DesertLand.to_string(), "DesertLand");
}

#[test]
fn hitbox_names_parse_in_both_cases() {
    assert!(matches!(HitboxKind::from_str("Cylinder"), Ok(HitboxKind::Cylinder)));
    assert!(matches!(HitboxKind::from_str("pill"), Ok(HitboxKind::Pill)));
    assert!(matches!(HitboxKind::from_str("boundingbox"), Ok(HitboxKind::BoundingBox)));
    assert!(matches!(HitboxKind::from_str("BoxDim"), Ok(HitboxKind::BoxDim)));
    assert!(matches!(HitboxKind::from_str("sphere"), Ok(HitboxKind::Sphere)));
    assert!(matches!(HitboxKind::from_str("Mesh"), Ok(HitboxKind::Mesh)));
    assert!(matches!(HitboxKind::from_str("PILL"), Err(ParseHitboxShapeError)));
    assert!(matches!(HitboxKind::from_str("cube"), Err(ParseHitboxShapeError)));
}

#[test]
fn form_names_fall_back_to_a_mesh_collider() {
    assert_eq!(HitboxKind::from_form("Sphere"), HitboxKind::Sphere);
    assert_eq!(HitboxKind::from_form("BoundingBox"), HitboxKind::BoundingBox);
    assert_eq!(HitboxKind::from_form("sphere"), HitboxKind::Mesh);
    assert_eq!(HitboxKind::from_form(""), HitboxKind::Mesh);
}

#[test]
fn new_entity_types_need_a_fresh_name() {
    assert_eq!(check_new_entity_type("Goblin", false), Ok(()));
    assert_eq!(check_new_entity_type("", false), Err(EntityTypeError::Blank));
    assert_eq!(check_new_entity_type("", true), Err(EntityTypeError::Blank));
    assert_eq!(check_new_entity_type("Goblin", true), Err(EntityTypeError::Duplicate));
}

#[test]
fn factions_get_their_controllers() {
    assert_eq!(
        faction_setup("Player"),
        FactionSetup { player_controller: true, enemy_controller: false, projectile_controller: true }
    );
    assert_eq!(
        faction_setup("Enemy"),
        FactionSetup { player_controller: false, enemy_controller: true, projectile_controller: true }
    );
    assert_eq!(
        faction_setup("Item"),
        FactionSetup { player_controller: false, enemy_controller: false, projectile_controller: false }
    );
}

#[test]
fn no_friendly_fire() {
    assert!(is_combatant("Player"));
    assert!(is_combatant("Enemy"));
    assert!(!is_combatant("Item"));
    assert!(can_hit("Player", "Enemy"));
    assert!(can_hit("Enemy", "Player"));
    assert!(!can_hit("Enemy", "Enemy"));
    assert!(!can_hit("Player", "Player"));
    assert!(!can_hit("Player", "Item"));
    assert!(!can_hit("World", "Enemy"));
}

#[test]
fn stop_modes_have_their_c_values() {
    assert_eq!(FMOD_STUDIO_STOP_MODE::FMOD_STUDIO_STOP_IMMEDIATE.raw(), 1);
    assert_eq!(FMOD_STUDIO_STOP_MODE::FMOD_STUDIO_STOP_ALLOWFADEOUT.raw(), 2);
}

#[test]
fn ids_parse_as_std_reads_u32() {
    for text in ["42", "+7", "007", "0", "4294967295", "", "+", "-1", "4294967296", "12a", "99999999999x", " 5", "+-3"] {
        assert_eq!(parse_u32(text), text.parse::<u32>().ok(), "{text}");
    }
    assert_eq!(parse_u32("+7"), Some(7));
}

#[test]
fn next_ability_id_follows_the_largest() {
    let keys: Vec<String> = ["3", "10", "abc", "+2"].iter().map(|s| s.to_string()).collect();
    assert_eq!(next_ability_id(&keys), Some(11));
    assert_eq!(next_ability_id(&vec![]), Some(1));
    assert_eq!(next_ability_id(&vec!["x".to_string()]), Some(1));
    assert_eq!(next_ability_id(&vec!["4294967295".to_string()]), None);
}

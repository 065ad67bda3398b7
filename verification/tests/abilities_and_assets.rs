use rand::SeedableRng;
use rand_chacha::ChaCha8Rng;
use spaghetti_engine::abilities::{
    StarterAbilities, WeaponAbilities, WeaponPoolsConfig, WeaponTypeAbilities,
};
use spaghetti_engine::assets::{decode_text, AssetTextError};
use spaghetti_engine::spawn::{weapon_for_enemy, RoundData};

fn config(starter: bool) -> WeaponPoolsConfig {
    WeaponPoolsConfig {
        weapon_types: vec![
            (
                "Sword".to_string(),
                WeaponTypeAbilities {
                    m1: 1,
                    m2: 2,
                    shift: 3,
                    skill_pool: vec![10, 11, 12, 13],
                    ultimate_pool: vec![20, 21],
                },
            ),
            (
                "Staff".to_string(),
                WeaponTypeAbilities { m1: 4, m2: 5, shift: 6, skill_pool: vec![30], ultimate_pool: vec![] },
            ),
        ],
        entity_type_mapping: vec![
            ("OrcSword".to_string(), "Sword".to_string()),
            ("FireStaff".to_string(), "Staff".to_string()),
            ("OddThing".to_string(), "Spear".to_string()),
        ],
        starter_abilities: if starter {
            Some(StarterAbilities { entity_type: "OrcSword".to_string(), q: 90, e: 91, r: 92 })
        } else {
            None
        },
    }
}

#[test]
fn unknown_weapons_get_no_abilities() {
    let mut rng = ChaCha8Rng::seed_from_u64(1);
    assert!(WeaponAbilities::generate("Rock", &config(false), &mut rng, false).is_none());
    assert!(WeaponAbilities::generate("OddThing", &config(false), &mut rng, false).is_none());
}

#[test]
fn the_starter_weapon_gets_its_fixed_skills() {
    let mut rng = ChaCha8Rng::seed_from_u64(1);
    let a = WeaponAbilities::generate("OrcSword", &config(true), &mut rng, true).unwrap();
    assert_eq!(
        a,
        WeaponAbilities { m1: Some(1), m2: Some(2), q: Some(90), e: Some(91), shift: Some(3), r: Some(92) }
    );
    let b = WeaponAbilities::generate("OrcSword", &config(true), &mut rng, false).unwrap();
    assert_ne!(b.q, Some(90));
}

#[test]
fn drawn_skills_are_two_different_pool_entries() {
    for seed in 0..20 {
        let mut rng = ChaCha8Rng::seed_from_u64(seed);
        let a = WeaponAbilities::generate("OrcSword", &config(false), &mut rng, false).unwrap();
        assert_eq!((a.m1, a.m2, a.shift), (Some(1), Some(2), Some(3)));
        let q = a.q.unwrap();
        let e = a.e.unwrap();
        assert!((10..=13).contains(&q));
        assert!((10..=13).contains(&e));
        assert_ne!(q, e);
        assert!(matches!(a.r, Some(20) | Some(21)));
    }
}

#[test]
fn small_pools_leave_slots_empty() {
    let mut rng = ChaCha8Rng::seed_from_u64(3);
    let a = WeaponAbilities::generate("FireStaff", &config(false), &mut rng, false).unwrap();
    assert_eq!(a.q, Some(30));
    assert_eq!(a.e, None);
    assert_eq!(a.r, None);
    assert_eq!(a.ability_in_slot(0), Some(4));
    assert_eq!(a.ability_in_slot(2), Some(30));
    assert_eq!(a.ability_in_slot(3), None);
    assert_eq!(a.ability_in_slot(4), Some(6));
    assert_eq!(a.ability_in_slot(6), None);
}

#[test]
fn the_skill_pool_is_really_shuffled() {
    let mut first_skills = Vec::new();
    for seed in 0..40 {
        let mut rng = ChaCha8Rng::seed_from_u64(seed);
        let a = WeaponAbilities::generate("OrcSword", &config(false), &mut rng, false).unwrap();
        first_skills.push(a.q.unwrap());
    }
    assert!(first_skills.iter().any(|q| *q != 10));
}

#[test]
fn the_ultimate_is_really_drawn() {
    let mut ultimates = Vec::new();
    for seed in 0..40 {
        let mut rng = ChaCha8Rng::seed_from_u64(seed);
        let a = WeaponAbilities::generate("OrcSword", &config(false), &mut rng, false).unwrap();
        ultimates.push(a.r.unwrap());
    }
    assert!(ultimates.contains(&20));
    assert!(ultimates.contains(&21));
}

#[test]
fn from_draw_takes_the_first_two_skills() {
    let wt = WeaponTypeAbilities { m1: 1, m2: 2, shift: 3, skill_pool: vec![], ultimate_pool: vec![] };
    let a = WeaponAbilities::from_draw(&wt, &vec![7, 8, 9], Some(5));
    assert_eq!(a, WeaponAbilities { m1: Some(1), m2: Some(2), q: Some(7), e: Some(8), shift: Some(3), r: Some(5) });
}

#[test]
fn random_weapons_vary() {
    let types = vec!["OrcSword".to_string(), "DoubleAxe".to_string(), "FireStaff".to_string()];
    let round = RoundData::new(30, None);
    let mut rng = ChaCha8Rng::seed_from_u64(11);
    let picks: Vec<String> = (0..30).map(|i| weapon_for_enemy(&round, i, &types, &mut rng)).collect();
    assert!(picks.iter().any(|w| w != "OrcSword"));
    assert!(picks.iter().all(|w| types.contains(w)));
}

#[test]
fn text_assets_decode_as_utf8() {
    let text = decode_text("config/a.json", "{\"k\": \"é\"}".as_bytes().to_vec()).unwrap();
    assert_eq!(text, "{\"k\": \"é\"}");
    assert_eq!(decode_text("empty.txt", vec![]).unwrap(), "");
}

#[test]
fn invalid_utf8_names_the_file() {
    match decode_text("models/bad.txt", vec![0x66, 0xff, 0x6f]) {
        Err(AssetTextError::InvalidUtf8 { path, error }) => {
            assert_eq!(path, "models/bad.txt");
            assert_eq!(error.as_bytes(), &[0x66, 0xff, 0x6f]);
        },
        Ok(_) => panic!("bytes that are not UTF-8 decoded"),
    }
}

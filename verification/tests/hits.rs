use spaghetti_engine::hits::{
    resolve_hits, resolve_projectile_hits, resolve_volume_hits, resolve_weapon_hits, Contact, Hit, Hitter,
};
use spaghetti_engine::sparse_set::SparseSet;
use std::collections::{HashMap, HashSet};

const SWORD: u64 = 100;
const PLAYER_BODY: u64 = 200;
const ENEMY_A: u64 = 201;
const ENEMY_B: u64 = 202;
const ITEM: u64 = 203;
const GHOST_ENEMY: u64 = 204;
const NOBODY: u64 = 299;

struct World {
    owners: HashMap<u64, usize>,
    factions: SparseSet<String>,
    bodies: SparseSet<()>,
}

fn world() -> World {
    let mut owners = HashMap::new();
    owners.insert(PLAYER_BODY, 0);
    owners.insert(ENEMY_A, 1);
    owners.insert(ENEMY_B, 2);
    owners.insert(ITEM, 3);
    owners.insert(GHOST_ENEMY, 4);
    let mut factions = SparseSet::with_capacity(8);
    factions.insert(0, "Player".to_string());
    factions.insert(1, "Enemy".to_string());
    factions.insert(2, "Enemy".to_string());
    factions.insert(3, "Item".to_string());
    factions.insert(4, "Enemy".to_string());
    let mut bodies = SparseSet::with_capacity(8);
    for id in 0..4 {
        bodies.insert(id, ());
    }
    World { owners, factions, bodies }
}

fn touch(first: u64, second: u64) -> Contact {
    Contact { first, second, intersecting: true }
}

#[test]
fn a_swing_hurts_each_enemy_collider_once() {
    let w = world();
    let contacts = vec![
        touch(SWORD, ENEMY_A),
        touch(ENEMY_A, SWORD),
        touch(SWORD, PLAYER_BODY),
        touch(SWORD, ITEM),
        Contact { first: SWORD, second: ENEMY_B, intersecting: false },
        touch(SWORD, NOBODY),
        touch(GHOST_ENEMY, SWORD),
        touch(SWORD, ENEMY_B),
    ];
    let mut seen = HashSet::new();
    let hits = resolve_weapon_hits(
        true, SWORD, PLAYER_BODY, 0, "Player", &contacts, &w.owners, &w.factions, &w.bodies, &mut seen,
    );
    assert_eq!(hits, vec![Hit { collider: ENEMY_A, victim: 1 }, Hit { collider: ENEMY_B, victim: 2 }]);
    assert!(seen.contains(&ENEMY_A) && seen.contains(&ENEMY_B) && seen.contains(&GHOST_ENEMY));
    assert_eq!(seen.len(), 3);

    let again = resolve_weapon_hits(
        true, SWORD, PLAYER_BODY, 0, "Player", &contacts, &w.owners, &w.factions, &w.bodies, &mut seen,
    );
    assert!(again.is_empty());

    let idle = resolve_weapon_hits(
        false, SWORD, PLAYER_BODY, 0, "Player", &contacts, &w.owners, &w.factions, &w.bodies, &mut seen,
    );
    assert!(idle.is_empty());
    assert!(seen.is_empty());
}

#[test]
fn enemies_do_not_hurt_enemies() {
    let w = world();
    let contacts = vec![touch(SWORD, ENEMY_B), touch(SWORD, PLAYER_BODY)];
    let mut seen = HashSet::new();
    let hits = resolve_weapon_hits(
        true, SWORD, ENEMY_A, 1, "Enemy", &contacts, &w.owners, &w.factions, &w.bodies, &mut seen,
    );
    assert_eq!(hits, vec![Hit { collider: PLAYER_BODY, victim: 0 }]);
}

#[test]
fn a_source_outside_the_fight_hurts_nobody() {
    let w = world();
    let contacts = vec![touch(SWORD, ENEMY_A)];
    let mut seen = HashSet::new();
    seen.insert(7);
    let hits = resolve_weapon_hits(
        true, SWORD, ITEM, 3, "Item", &contacts, &w.owners, &w.factions, &w.bodies, &mut seen,
    );
    assert!(hits.is_empty());
    assert_eq!(seen.len(), 1);
}

#[test]
fn projectiles_hurt_on_every_contact() {
    let w = world();
    let bolt = 150;
    let contacts = vec![touch(bolt, ENEMY_A), touch(ENEMY_A, bolt), touch(ENEMY_A, ENEMY_B), touch(bolt, PLAYER_BODY)];
    let hits = resolve_projectile_hits(bolt, 0, "Player", &contacts, &w.owners, &w.factions, &w.bodies);
    assert_eq!(hits, vec![Hit { collider: ENEMY_A, victim: 1 }, Hit { collider: ENEMY_A, victim: 1 }]);
}

#[test]
fn volumes_hurt_each_collider_once_per_tick() {
    let w = world();
    let fire = 160;
    let contacts = vec![touch(fire, ENEMY_A), touch(ENEMY_A, fire), touch(fire, ENEMY_B)];
    let mut seen = HashSet::new();
    let first = resolve_volume_hits(fire, 0, "Player", &contacts, &w.owners, &w.factions, &w.bodies, &mut seen);
    assert_eq!(first, vec![Hit { collider: ENEMY_A, victim: 1 }, Hit { collider: ENEMY_B, victim: 2 }]);
    let second = resolve_volume_hits(fire, 0, "Player", &contacts, &w.owners, &w.factions, &w.bodies, &mut seen);
    assert_eq!(second, first);
}

#[test]
fn the_general_resolver_keeps_its_memory() {
    let w = world();
    let mut seen = HashSet::new();
    seen.insert(ENEMY_A);
    let contacts = vec![touch(SWORD, ENEMY_A), touch(SWORD, ENEMY_B)];
    let hits = resolve_hits(
        Hitter::Weapon { body: PLAYER_BODY },
        SWORD,
        0,
        "Player",
        &contacts,
        &w.owners,
        &w.factions,
        &w.bodies,
        &mut seen,
    );
    assert_eq!(hits, vec![Hit { collider: ENEMY_B, victim: 2 }]);
}

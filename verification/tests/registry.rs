use spaghetti_engine::enums_types::ActiveItem;
use spaghetti_engine::registry::{held, EntityRegistry};
use spaghetti_engine::sparse_set::SparseSet;

fn registry() -> EntityRegistry {
    let mut r = EntityRegistry::new(16);
    r.factions.insert(0, "Player".to_string());
    r.factions.insert(1, "Enemy".to_string());
    r.factions.insert(2, "Enemy".to_string());
    r.factions.insert(3, "Item".to_string());
    r.factions.insert(4, "Item".to_string());
    r.factions.insert(5, "Item".to_string());
    r.entity_types.insert(0, "Hero".to_string());
    r.entity_types.insert(1, "Peasant1".to_string());
    r.entity_types.insert(2, "Peasant1".to_string());
    r.entity_types.insert(3, "OrcSword".to_string());
    r.entity_types.insert(4, "DoubleAxe".to_string());
    r.entity_types.insert(5, "OrcSword".to_string());
    r
}

#[test]
fn held_lists_right_hand_first() {
    let a = ActiveItem { right_hand: Some(4), left_hand: Some(9) };
    assert_eq!(held(&a), vec![4, 9]);
    let a = ActiveItem { right_hand: None, left_hand: Some(9) };
    assert_eq!(held(&a), vec![9]);
    let a = ActiveItem { right_hand: None, left_hand: None };
    assert!(held(&a).is_empty());
}

#[test]
fn queries_by_faction_and_type_keep_storage_order() {
    let r = registry();
    assert_eq!(r.get_ids_for_faction("Enemy"), vec![1, 2]);
    assert_eq!(r.get_ids_for_faction("Item"), vec![3, 4, 5]);
    assert!(r.get_ids_for_faction("World").is_empty());
    assert_eq!(r.get_ids_for_type("OrcSword"), vec![3, 5]);
    assert_eq!(r.get_player_id(), Some(0));
}

#[test]
fn no_player_means_no_player_id() {
    let mut r = registry();
    r.factions.remove(0);
    assert_eq!(r.get_player_id(), None);
}

#[test]
fn first_weapon_is_equipped_and_later_ones_are_stowed() {
    let mut r = registry();
    r.stash_or_equip(1, 3);
    assert_eq!(r.active_items.get(1), Some(&ActiveItem { right_hand: Some(3), left_hand: None }));
    assert_eq!(r.is_equipped.get(3), Some(&true));
    assert_eq!(r.owners.get(3), Some(&1));
    r.stash_or_equip(1, 4);
    assert_eq!(r.inventories.get(1), Some(&vec![4]));
    assert_eq!(r.active_items.get(1), Some(&ActiveItem { right_hand: Some(3), left_hand: None }));
    assert!(!r.is_equipped.contains(4));
    assert_eq!(r.owners.get(4), Some(&1));
}

#[test]
fn orphaned_and_stowed_items() {
    let mut r = registry();
    r.stash_or_equip(1, 3);
    r.stash_or_equip(1, 4);
    assert_eq!(r.get_all_orphaned_weapon_ids(), vec![5]);
    assert_eq!(r.get_all_unequipped_owned_ids(), vec![4]);
    assert_eq!(r.get_active_weapon_ids(), vec![3]);
}

#[test]
fn picking_up_a_weapon_stows_the_old_one() {
    let mut r = registry();
    r.stash_or_equip(0, 3);
    r.equip_picked_up_weapon(0, 5);
    assert_eq!(r.active_items.get(0), Some(&ActiveItem { right_hand: Some(5), left_hand: None }));
    assert_eq!(r.inventories.get(0), Some(&vec![3]));
    assert!(!r.is_equipped.contains(3));
    assert_eq!(r.is_equipped.get(5), Some(&true));
    assert_eq!(r.owners.get(5), Some(&0));
}

#[test]
fn dropping_held_items_releases_them() {
    let mut r = registry();
    r.stash_or_equip(1, 3);
    r.stash_or_equip(1, 4);
    let released = r.drop_active_items(1);
    assert_eq!(released, vec![3]);
    assert!(!r.owners.contains(3));
    assert!(!r.is_equipped.contains(3));
    assert!(!r.active_items.contains(1));
    assert_eq!(r.owners.get(4), Some(&1));
    assert!(r.drop_active_items(2).is_empty());
}

#[test]
fn forgetting_an_entity_releases_everything_it_owned() {
    let mut r = registry();
    r.stash_or_equip(1, 3);
    r.stash_or_equip(1, 4);
    let released = r.forget_entity(1);
    assert_eq!(released, vec![4, 3]);
    assert!(!r.factions.contains(1));
    assert!(!r.entity_types.contains(1));
    assert!(!r.inventories.contains(1));
    assert!(!r.owners.contains(3));
    assert!(!r.owners.contains(4));
    assert_eq!(r.get_ids_for_faction("Enemy"), vec![2]);
}

#[test]
fn resolving_weapons_lists_carried_then_held_items() {
    let mut r = registry();
    assert_eq!(r.resolve_weapon_ids(1), None);
    r.stash_or_equip(1, 3);
    r.stash_or_equip(1, 4);
    assert_eq!(r.resolve_weapon_ids(1), Some(vec![4, 3]));
}

#[test]
fn main_hand_weapon_needs_abilities() {
    let mut r = registry();
    r.stash_or_equip(0, 3);
    let mut abilities: SparseSet<u32> = SparseSet::with_capacity(16);
    assert_eq!(r.player_main_hand_weapon(&abilities), None);
    abilities.insert(3, 7);
    assert_eq!(r.player_main_hand_weapon(&abilities), Some(3));
}

#[test]
fn ids_grouped_by_type_in_order_of_first_appearance() {
    let r = registry();
    let groups = r.get_ids_by_type();
    assert_eq!(
        groups,
        vec![
            ("Hero".to_string(), vec![0]),
            ("Peasant1".to_string(), vec![1, 2]),
            ("OrcSword".to_string(), vec![3, 5]),
            ("DoubleAxe".to_string(), vec![4]),
        ]
    );
    assert!(EntityRegistry::new(4).get_ids_by_type().is_empty());
}

#[test]
fn releasing_a_held_item_moves_the_last_one_into_its_place() {
    let mut r = registry();
    r.stash_or_equip(0, 3);
    r.stash_or_equip(1, 4);
    r.stash_or_equip(2, 5);
    assert_eq!(r.get_active_weapon_ids(), vec![3, 4, 5]);
    assert_eq!(r.drop_active_items(0), vec![3]);
    assert_eq!(r.get_active_weapon_ids(), vec![5, 4]);
    r.stash_or_equip(0, 3);
    assert_eq!(r.get_active_weapon_ids(), vec![5, 4, 3]);
    assert_eq!(r.forget_entity(1), vec![4]);
    assert_eq!(r.get_active_weapon_ids(), vec![5, 3]);
}

#[test]
fn deleting_entities_empties_the_trash_and_every_list() {
    let mut r = registry();
    r.stash_or_equip(1, 3);
    r.stash_or_equip(1, 4);
    let mut abilities: SparseSet<u32> = SparseSet::with_capacity(16);
    abilities.insert(3, 30);
    abilities.insert(1, 10);
    let mut trash = vec![1, 2, 1];
    let mut selected = vec![1, 0, 2, 5];
    let mut round = vec![2, 1, 0];
    let released = r.delete_entities(&mut trash, &mut selected, &mut round, &mut abilities);
    assert_eq!(released, vec![4, 3]);
    assert!(trash.is_empty());
    assert_eq!(selected, vec![0, 5]);
    assert_eq!(round, vec![0]);
    assert_eq!(abilities.get(1), None);
    assert_eq!(abilities.get(3), Some(&30));
    assert!(!r.factions.contains(1) && !r.factions.contains(2));
    assert!(r.factions.contains(3));
    assert!(r.owners.get(3).is_none() && r.owners.get(4).is_none());
    assert!(r.get_active_weapon_ids().is_empty());
    assert_eq!(r.get_all_orphaned_weapon_ids(), vec![5, 4, 3]);
}

#[test]
fn registering_an_entity_stores_its_faction_and_type() {
    let mut r = EntityRegistry::new(8);
    r.register_entity(2, "Enemy".to_string(), "Peasant1".to_string());
    r.register_entity(0, "Player".to_string(), "Hero".to_string());
    assert_eq!(r.get_player_id(), Some(0));
    assert_eq!(r.get_ids_for_type("Peasant1"), vec![2]);
    assert_eq!(r.get_ids_for_faction("Enemy"), vec![2]);
    r.register_entity(2, "Item".to_string(), "OrcSword".to_string());
    assert_eq!(r.get_ids_for_faction("Item"), vec![2]);
    assert!(r.get_ids_for_faction("Enemy").is_empty());
}

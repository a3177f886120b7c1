use roguelike_map::map::{GameMap, DEFAULT_MAP_HEIGHT, DEFAULT_MAP_WIDTH};
use roguelike_map::position::MapPosition;

#[test]
fn new_map_is_empty() {
    let map = GameMap::new(30, 20);
    assert_eq!(map.width(), 30);
    assert_eq!(map.height(), 20);
    assert_eq!(map.player(), None);
    assert_eq!(map.player_position(), None);
    assert_eq!(map.get_entity(&MapPosition { x: 0, y: 0 }), None);
    assert!(!map.check_collision(MapPosition { x: 3, y: 4 }));
    assert_eq!(map.position(5), None);
}

#[test]
fn default_map_size() {
    let map = GameMap::default();
    assert_eq!(map.width(), DEFAULT_MAP_WIDTH);
    assert_eq!(map.height(), DEFAULT_MAP_HEIGHT);
    assert_eq!(map.width(), 120);
    assert_eq!(map.height(), 40);
}

#[test]
fn spawned_entities_are_found() {
    let mut map = GameMap::default();
    map.spawn_wall(10, 0, 0);
    map.spawn_npc(11, 4, -3);
    map.spawn_player(12, 2, 3);
    assert_eq!(map.get_entity(&MapPosition { x: 0, y: 0 }), Some(&10));
    assert_eq!(map.get_entity(&MapPosition { x: 4, y: -3 }), Some(&11));
    assert_eq!(map.get_entity(&MapPosition { x: 2, y: 3 }), Some(&12));
    assert_eq!(map.position(11), Some(MapPosition { x: 4, y: -3 }));
    assert_eq!(map.player(), Some(12));
    assert_eq!(map.player_position(), Some(MapPosition { x: 2, y: 3 }));
    assert!(map.check_collision(MapPosition { x: 4, y: -3 }));
    assert!(!map.check_collision(MapPosition { x: -3, y: 4 }));
}

#[test]
fn cells_far_apart_are_kept_apart() {
    let mut map = GameMap::new(1, 1);
    map.spawn_wall(1, i32::MIN, i32::MAX);
    map.spawn_wall(2, i32::MAX, i32::MIN);
    map.spawn_wall(3, -1, 0);
    map.spawn_wall(4, 0, -1);
    assert_eq!(map.get_entity(&MapPosition { x: i32::MIN, y: i32::MAX }), Some(&1));
    assert_eq!(map.get_entity(&MapPosition { x: i32::MAX, y: i32::MIN }), Some(&2));
    assert_eq!(map.get_entity(&MapPosition { x: -1, y: 0 }), Some(&3));
    assert_eq!(map.get_entity(&MapPosition { x: 0, y: -1 }), Some(&4));
    assert_eq!(map.get_entity(&MapPosition { x: 0, y: 0 }), None);
}

#[test]
fn moving_an_entity_updates_both_tables() {
    let mut map = GameMap::default();
    map.spawn_player(7, 2, 3);
    map.update_entity_position(&MapPosition { x: 2, y: 3 }, MapPosition { x: 3, y: 3 });
    assert_eq!(map.get_entity(&MapPosition { x: 2, y: 3 }), None);
    assert_eq!(map.get_entity(&MapPosition { x: 3, y: 3 }), Some(&7));
    assert_eq!(map.player_position(), Some(MapPosition { x: 3, y: 3 }));
    // and back again
    map.update_entity_position(&MapPosition { x: 3, y: 3 }, MapPosition { x: 2, y: 3 });
    assert_eq!(map.get_entity(&MapPosition { x: 2, y: 3 }), Some(&7));
    assert_eq!(map.get_entity(&MapPosition { x: 3, y: 3 }), None);
    assert_eq!(map.player_position(), Some(MapPosition { x: 2, y: 3 }));
}

#[test]
fn moving_from_an_empty_cell_changes_nothing() {
    let mut map = GameMap::default();
    map.spawn_npc(1, 5, 5);
    map.update_entity_position(&MapPosition { x: 9, y: 9 }, MapPosition { x: 5, y: 5 });
    assert_eq!(map.get_entity(&MapPosition { x: 5, y: 5 }), Some(&1));
    assert_eq!(map.get_entity(&MapPosition { x: 9, y: 9 }), None);
    assert_eq!(map.position(1), Some(MapPosition { x: 5, y: 5 }));
}

#[test]
fn removing_clears_both_tables() {
    let mut map = GameMap::default();
    map.spawn_npc(1, 5, 5);
    map.spawn_npc(2, 6, 5);
    map.remove_entity(&MapPosition { x: 5, y: 5 });
    assert_eq!(map.get_entity(&MapPosition { x: 5, y: 5 }), None);
    assert_eq!(map.position(1), None);
    assert_eq!(map.position(2), Some(MapPosition { x: 6, y: 5 }));
    map.remove_entity(&MapPosition { x: 0, y: 0 });
    assert_eq!(map.position(2), Some(MapPosition { x: 6, y: 5 }));
}

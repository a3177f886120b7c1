use roguelike_map::grid::{
    border_cells, can_step, move_target, step_target, GameMap, MapPosition, MoveOutcome,
    MAP_HEIGHT, MAP_WIDTH,
};
use roguelike_map::input::{screen_direction, KeyState};

fn keys(up: bool, down: bool, left: bool, right: bool) -> KeyState {
    KeyState { up, down, left, right }
}

fn pos(x: u32, y: u32) -> MapPosition {
    MapPosition { x, y }
}

#[test]
fn border_of_a_small_level() {
    let cells = border_cells(4, 3);
    let expected = vec![
        pos(0, 0),
        pos(3, 0),
        pos(0, 1),
        pos(3, 1),
        pos(0, 2),
        pos(3, 2),
        pos(1, 0),
        pos(1, 2),
        pos(2, 0),
        pos(2, 2),
    ];
    assert_eq!(cells, expected);
}

#[test]
fn border_covers_exactly_the_edge() {
    let (w, h) = (MAP_WIDTH, MAP_HEIGHT);
    let cells = border_cells(w, h);
    assert_eq!(cells.len() as u32, 2 * h + 2 * (w - 2));
    for c in &cells {
        assert!(c.x < w && c.y < h);
        assert!(c.x == 0 || c.x == w - 1 || c.y == 0 || c.y == h - 1);
    }
    for x in 0..w {
        for y in 0..h {
            if x == 0 || x == w - 1 || y == 0 || y == h - 1 {
                assert!(cells.contains(&pos(x, y)));
            }
        }
    }
}

#[test]
fn border_of_degenerate_levels() {
    assert_eq!(border_cells(1, 2), vec![pos(0, 0), pos(0, 0), pos(0, 1), pos(0, 1)]);
    assert_eq!(border_cells(2, 0), vec![]);
    assert_eq!(border_cells(3, 1), vec![pos(0, 0), pos(2, 0), pos(1, 0), pos(1, 0)]);
}

#[test]
fn keys_step_on_the_grid() {
    let p = pos(5, 5);
    assert_eq!(step_target(&p, keys(true, false, false, false)), pos(5, 4));
    assert_eq!(step_target(&p, keys(false, true, false, false)), pos(5, 6));
    assert_eq!(step_target(&p, keys(false, false, true, false)), pos(4, 5));
    assert_eq!(step_target(&p, keys(false, false, false, true)), pos(6, 5));
    assert_eq!(step_target(&p, keys(true, false, true, false)), pos(4, 4));
    assert_eq!(step_target(&p, keys(true, true, true, true)), pos(5, 5));
    assert_eq!(move_target(&p, keys(true, true, false, false)), None);
    assert_eq!(move_target(&p, keys(false, false, false, false)), None);
    assert_eq!(move_target(&p, keys(false, true, false, true)), Some(pos(6, 6)));
}

#[test]
fn steps_off_the_grid_are_refused() {
    assert!(!can_step(&pos(0, 3), keys(false, false, true, false)));
    assert!(!can_step(&pos(3, 0), keys(true, false, false, false)));
    assert!(!can_step(&pos(3, 0), keys(true, true, false, false)));
    assert!(!can_step(&pos(u32::MAX, 3), keys(false, false, false, true)));
    assert!(can_step(&pos(u32::MAX, 3), keys(false, false, true, true)));
    assert!(can_step(&pos(3, u32::MAX), keys(true, true, false, false)));
    assert!(can_step(&pos(0, 0), keys(false, true, false, true)));
}

#[test]
fn screen_direction_of_keys() {
    assert_eq!(screen_direction(keys(true, false, false, false)), (0, 1));
    assert_eq!(screen_direction(keys(false, true, false, false)), (0, -1));
    assert_eq!(screen_direction(keys(false, false, true, false)), (-1, 0));
    assert_eq!(screen_direction(keys(false, false, false, true)), (1, 0));
    assert_eq!(screen_direction(keys(true, true, true, true)), (0, 0));
    assert_eq!(screen_direction(keys(true, false, false, true)), (1, 1));
}

#[test]
fn player_moves_into_free_cells_only() {
    let mut map = GameMap::default();
    map.spawn_player(1, 2, 3);
    map.spawn_wall(2, 2, 2);
    let start = pos(2, 3);
    assert_eq!(map.try_move_player(&start, keys(false, false, false, false)), MoveOutcome::Unchanged);
    assert_eq!(
        map.try_move_player(&start, keys(true, false, false, false)),
        MoveOutcome::Blocked(pos(2, 2))
    );
    assert_eq!(map.get_entity(&start), Some(&1));
    assert_eq!(map.get_entity(&pos(2, 2)), Some(&2));
    assert_eq!(
        map.try_move_player(&start, keys(false, false, false, true)),
        MoveOutcome::Moved(pos(3, 3))
    );
    assert_eq!(map.get_entity(&start), None);
    assert_eq!(map.get_entity(&pos(3, 3)), Some(&1));
    assert_eq!(map.get_entity(&pos(2, 2)), Some(&2));
}

#[test]
fn grid_map_reads_back_writes() {
    let mut map = GameMap::new(10, 10);
    assert_eq!(map.width(), 10);
    assert_eq!(map.height(), 10);
    map.add_entity(pos(u32::MAX, 0), 5);
    map.add_entity(pos(0, u32::MAX), 6);
    assert_eq!(map.get_entity(&pos(u32::MAX, 0)), Some(&5));
    assert_eq!(map.get_entity(&pos(0, u32::MAX)), Some(&6));
    map.update_entity_position(&pos(u32::MAX, 0), pos(1, 1));
    assert_eq!(map.get_entity(&pos(u32::MAX, 0)), None);
    assert_eq!(map.get_entity(&pos(1, 1)), Some(&5));
    map.remove_entity(&pos(1, 1));
    assert_eq!(map.get_entity(&pos(1, 1)), None);
}

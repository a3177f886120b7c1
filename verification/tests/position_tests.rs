use roguelike_map::position::{neighbors_of, MapPosition};

#[test]
fn test_distance() {
    let pos1 = MapPosition { x: 0, y: 0 };
    let pos2 = MapPosition { x: 3, y: 4 };
    assert_eq!(pos1.distance_to(pos2), 7);
}

#[test]
fn test_neighbors() {
    let center = MapPosition { x: 5, y: 5 };
    let neighbors = neighbors_of(center);
    let expected_neighbors = [
        MapPosition { x: 6, y: 6 },
        MapPosition { x: 6, y: 5 },
        MapPosition { x: 6, y: 4 },
        MapPosition { x: 5, y: 4 },
        MapPosition { x: 4, y: 4 },
        MapPosition { x: 4, y: 5 },
        MapPosition { x: 4, y: 6 },
        MapPosition { x: 5, y: 6 },
    ];
    assert_eq!(neighbors, expected_neighbors);
}

#[test]
fn test_addition() {
    let pos1 = MapPosition { x: 2, y: 3 };
    let pos2 = MapPosition { x: 4, y: 5 };
    let result = pos1 + pos2;
    assert_eq!(result, MapPosition { x: 6, y: 8 });
}

#[test]
fn test_subtraction() {
    let pos1 = MapPosition { x: 5, y: 7 };
    let pos2 = MapPosition { x: 2, y: 3 };
    let result = pos1 - pos2;
    assert_eq!(result, MapPosition { x: 3, y: 4 });
}

#[test]
fn test_from_tuple() {
    let pos: MapPosition = (10, 20).into();
    assert_eq!(pos, MapPosition { x: 10, y: 20 });
}

#[test]
fn distance_with_negative_coordinates() {
    let a = MapPosition { x: -3, y: 2 };
    let b = MapPosition { x: 4, y: -5 };
    assert_eq!(a.distance_to(b), 14);
    assert_eq!(b.distance_to(a), 14);
    assert_eq!(a.distance_to(a), 0);
}

#[test]
fn distance_triangle_on_examples() {
    let a = MapPosition { x: 0, y: 0 };
    let b = MapPosition { x: 2, y: -1 };
    let c = MapPosition { x: 5, y: 3 };
    assert!(a.distance_to(c) <= a.distance_to(b) + b.distance_to(c));
}

#[test]
fn distance_is_kept_by_translation() {
    let a = MapPosition { x: 1, y: 2 };
    let b = MapPosition { x: -4, y: 9 };
    let offset = MapPosition { x: 100, y: -50 };
    assert_eq!((a + offset).distance_to(b + offset), a.distance_to(b));
}

#[test]
fn add_then_sub_gives_back() {
    let a = MapPosition { x: -7, y: 11 };
    let b = MapPosition { x: 3, y: -20 };
    assert_eq!((a + b) - b, a);
    assert_eq!((a - b) + b, a);
    assert_eq!(a + b, b + a);
    assert_eq!(a - a, MapPosition::default());
}

#[test]
fn neighbors_are_adjacent_distinct_and_complete() {
    let center = MapPosition { x: -2, y: 7 };
    let neighbors = neighbors_of(center);
    for (i, n) in neighbors.iter().enumerate() {
        assert_ne!(*n, center);
        assert!((n.x - center.x).abs() <= 1 && (n.y - center.y).abs() <= 1);
        let d = n.distance_to(center);
        assert!(d == 1 || d == 2);
        for (j, m) in neighbors.iter().enumerate() {
            if i != j {
                assert_ne!(n, m);
            }
        }
    }
    for dx in -1..=1 {
        for dy in -1..=1 {
            if dx != 0 || dy != 0 {
                let p = MapPosition { x: center.x + dx, y: center.y + dy };
                assert!(neighbors.contains(&p));
            }
        }
    }
}

#[test]
fn neighbors_near_the_edge_of_the_grid() {
    let center = MapPosition { x: i32::MAX - 1, y: i32::MIN + 1 };
    let neighbors = neighbors_of(center);
    assert_eq!(neighbors[0], MapPosition { x: i32::MAX, y: i32::MIN + 2 });
    assert_eq!(neighbors[4], MapPosition { x: i32::MAX - 2, y: i32::MIN });
}

use creep_tasks::geometry::{room_coordinate, Tile, ROOM_AREA};
use creep_tasks::movement::{cost_overlay, direction_toward, in_range_one, move_toward, Direction, Outcome, PathSearch, OCCUPIED_COST};

#[test]
fn overlay_marks_units_only() {
    let creeps = vec![Tile { x: 3, y: 4 }, Tile { x: 49, y: 0 }, Tile { x: 60, y: 1 }];
    let grid = cost_overlay(&creeps);
    assert_eq!(grid.len(), ROOM_AREA);
    assert_eq!(grid[3 * 50 + 4], 255);
    assert_eq!(grid[49 * 50], OCCUPIED_COST);
    assert_eq!(grid[4 * 50 + 3], 0);
    assert_eq!(grid.iter().filter(|c| **c != 0).count(), 2);
}

#[test]
fn overlay_empty_room() {
    let grid = cost_overlay(&vec![]);
    assert!(grid.iter().all(|c| *c == 0));
}

#[test]
fn move_toward_steps_along_path() {
    let from = Tile { x: 10, y: 10 };
    let dest = Tile { x: 15, y: 5 };
    let search = PathSearch { incomplete: false, path: vec![Tile { x: 11, y: 9 }, Tile { x: 12, y: 8 }] };
    assert_eq!(move_toward(from, dest, &search), Outcome::Moving(Direction::TopRight));
}

#[test]
fn move_toward_arrived_when_adjacent() {
    let from = Tile { x: 10, y: 10 };
    let search = PathSearch { incomplete: true, path: vec![] };
    assert_eq!(move_toward(from, Tile { x: 11, y: 11 }, &search), Outcome::Arrived);
    assert_eq!(move_toward(from, from, &search), Outcome::Arrived);
}

#[test]
fn move_toward_blocked_destination_is_no_path() {
    // The destination sits in a dead end whose only open neighbour holds a unit.
    let occupant = Tile { x: 21, y: 20 };
    let grid = cost_overlay(&vec![occupant]);
    assert_eq!(grid[21 * 50 + 20], OCCUPIED_COST);
    let from = Tile { x: 25, y: 20 };
    let dest = Tile { x: 20, y: 20 };
    let search = PathSearch { incomplete: true, path: vec![Tile { x: 24, y: 20 }, Tile { x: 23, y: 20 }] };
    assert_eq!(move_toward(from, dest, &search), Outcome::NoPath);
}

#[test]
fn move_toward_rejects_unusable_path() {
    let from = Tile { x: 10, y: 10 };
    let dest = Tile { x: 20, y: 20 };
    let empty = PathSearch { incomplete: false, path: vec![] };
    assert_eq!(move_toward(from, dest, &empty), Outcome::NoPath);
    let jump = PathSearch { incomplete: false, path: vec![Tile { x: 12, y: 12 }] };
    assert_eq!(move_toward(from, dest, &jump), Outcome::NoPath);
}

#[test]
fn directions_follow_signs() {
    let c = Tile { x: 5, y: 5 };
    assert_eq!(direction_toward(c, Tile { x: 5, y: 1 }), Direction::Top);
    assert_eq!(direction_toward(c, Tile { x: 9, y: 5 }), Direction::Right);
    assert_eq!(direction_toward(c, Tile { x: 6, y: 6 }), Direction::BottomRight);
    assert_eq!(direction_toward(c, Tile { x: 5, y: 7 }), Direction::Bottom);
    assert_eq!(direction_toward(c, Tile { x: 4, y: 6 }), Direction::BottomLeft);
    assert_eq!(direction_toward(c, Tile { x: 0, y: 5 }), Direction::Left);
    assert_eq!(direction_toward(c, Tile { x: 4, y: 4 }), Direction::TopLeft);
}

#[test]
fn range_and_coordinates() {
    assert!(in_range_one(Tile { x: 5, y: 5 }, Tile { x: 4, y: 6 }));
    assert!(!in_range_one(Tile { x: 5, y: 5 }, Tile { x: 7, y: 5 }));
    assert_eq!(room_coordinate(-1), None);
    assert_eq!(room_coordinate(0), Some(0));
    assert_eq!(room_coordinate(49), Some(49));
    assert_eq!(room_coordinate(50), None);
}

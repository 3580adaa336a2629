use creep_tasks::geometry::{Tile, ROOM_AREA};
use creep_tasks::room::{Node, RoomView, Terrain};

fn plain_room() -> RoomView {
    RoomView { terrain: vec![Terrain::Plain; ROOM_AREA], creeps: vec![], nodes: vec![] }
}

fn set_wall(room: &mut RoomView, x: u8, y: u8) {
    let i = Tile { x, y }.index();
    room.terrain[i] = Terrain::Wall;
}

fn node(id: &str, x: u8, y: u8) -> Node {
    Node { id: id.to_string(), pos: Tile { x, y } }
}

#[test]
fn free_slots_open_ground_has_eight() {
    let room = plain_room();
    let slots = room.free_slots(Tile { x: 10, y: 10 });
    assert_eq!(slots.len(), 8);
    assert_eq!(slots[0], Tile { x: 9, y: 9 });
    assert_eq!(slots[7], Tile { x: 11, y: 11 });
    assert!(!slots.contains(&Tile { x: 10, y: 10 }));
}

#[test]
fn free_slots_clipped_at_corner() {
    let room = plain_room();
    let slots = room.free_slots(Tile { x: 0, y: 0 });
    assert_eq!(slots, vec![Tile { x: 0, y: 1 }, Tile { x: 1, y: 0 }, Tile { x: 1, y: 1 }]);
    let far = room.free_slots(Tile { x: 49, y: 49 });
    assert_eq!(far.len(), 3);
}

#[test]
fn free_slots_skip_walls_and_units() {
    let mut room = plain_room();
    set_wall(&mut room, 9, 9);
    set_wall(&mut room, 9, 10);
    room.creeps.push(Tile { x: 11, y: 11 });
    let slots = room.free_slots(Tile { x: 10, y: 10 });
    assert_eq!(slots.len(), 5);
    assert!(!slots.contains(&Tile { x: 11, y: 11 }));
    assert!(!slots.contains(&Tile { x: 9, y: 9 }));
    assert_eq!(room.free_capacity(Tile { x: 10, y: 10 }), 5);
    // swamp is passable
    let i = Tile { x: 10, y: 9 }.index();
    room.terrain[i] = Terrain::Swamp;
    assert_eq!(room.free_capacity(Tile { x: 10, y: 10 }), 5);
}

#[test]
fn best_node_none_without_nodes() {
    let room = plain_room();
    assert_eq!(room.best_node(), None);
    assert_eq!(room.best_node_index(), None);
}

#[test]
fn best_node_picks_most_free_slots() {
    let mut room = plain_room();
    room.nodes.push(node("a", 0, 0));
    room.nodes.push(node("b", 20, 20));
    room.nodes.push(node("c", 49, 10));
    assert_eq!(room.best_node(), Some("b".to_string()));
    assert_eq!(room.best_node_index(), Some(1));
}

#[test]
fn best_node_ties_go_to_first_listed() {
    let mut room = plain_room();
    room.nodes.push(node("first", 10, 10));
    room.nodes.push(node("second", 30, 30));
    assert_eq!(room.best_node(), Some("first".to_string()));
}

#[test]
fn best_node_returns_node_with_no_free_slot() {
    let mut room = plain_room();
    for (x, y) in [(4, 4), (4, 5), (4, 6), (5, 4), (5, 6), (6, 4), (6, 5), (6, 6)] {
        set_wall(&mut room, x, y);
    }
    room.nodes.push(node("walled", 5, 5));
    assert_eq!(room.free_capacity(Tile { x: 5, y: 5 }), 0);
    assert_eq!(room.best_node(), Some("walled".to_string()));
}

#[test]
fn best_node_counts_units_on_slots() {
    let mut room = plain_room();
    room.nodes.push(node("crowded", 10, 10));
    room.nodes.push(node("quiet", 30, 30));
    room.creeps.push(Tile { x: 9, y: 9 });
    assert_eq!(room.best_node(), Some("quiet".to_string()));
}

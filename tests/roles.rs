use creep_tasks::geometry::{Tile, ROOM_AREA};
use creep_tasks::role::{CreepType, RoomFacts, Store};
use creep_tasks::room::{Node, RoomView, Terrain};
use creep_tasks::target::CreepTarget;

fn facts() -> RoomFacts {
    RoomFacts {
        first_site: Some("site".to_string()),
        best_node: Some("node".to_string()),
        controller: Some("ctrl".to_string()),
    }
}

const EMPTY: Store = Store { used: 0, free: 50 };
const HALF: Store = Store { used: 20, free: 30 };
const FULL: Store = Store { used: 50, free: 0 };

#[test]
fn gatherer_empty_store_harvests_node_with_three_free_tiles() {
    let mut room = RoomView { terrain: vec![Terrain::Plain; ROOM_AREA], creeps: vec![], nodes: vec![] };
    for (x, y) in [(9, 9), (9, 10), (9, 11), (10, 9), (10, 11)] {
        let i = Tile { x, y }.index();
        room.terrain[i] = Terrain::Wall;
    }
    room.nodes.push(Node { id: "src1".to_string(), pos: Tile { x: 10, y: 10 } });
    assert_eq!(room.free_capacity(Tile { x: 10, y: 10 }), 3);
    let f = RoomFacts { first_site: None, best_node: room.best_node(), controller: None };
    assert_eq!(CreepType::Builder.assign(EMPTY, &f), Some(CreepTarget::Harvest("src1".to_string())));
}

#[test]
fn gatherer_with_resource_builds() {
    assert_eq!(CreepType::Builder.assign(FULL, &facts()), Some(CreepTarget::Build("site".to_string())));
    assert_eq!(CreepType::Builder.assign(HALF, &facts()), Some(CreepTarget::Build("site".to_string())));
    let mut f = facts();
    f.first_site = None;
    assert_eq!(CreepType::Builder.assign(FULL, &f), Some(CreepTarget::Harvest("node".to_string())));
    f.best_node = None;
    assert_eq!(CreepType::Builder.assign(FULL, &f), None);
}

#[test]
fn upgrader_policy() {
    assert_eq!(CreepType::Upgrader.assign(FULL, &facts()), Some(CreepTarget::Upgrade("ctrl".to_string())));
    assert_eq!(CreepType::Upgrader.assign(EMPTY, &facts()), Some(CreepTarget::Harvest("node".to_string())));
    assert_eq!(CreepType::Upgrader.assign(HALF, &facts()), Some(CreepTarget::Harvest("node".to_string())));
    let mut f = facts();
    f.best_node = None;
    assert_eq!(CreepType::Upgrader.assign(EMPTY, &f), None);
}

#[test]
fn harvester_takes_no_goal() {
    assert_eq!(CreepType::Harvester.assign(FULL, &facts()), None);
    assert_eq!(CreepType::Harvester.assign(EMPTY, &facts()), None);
}

#[test]
fn run_keeps_current_goal() {
    let current = Some(CreepTarget::Spawn("sp".to_string()));
    assert_eq!(CreepType::Upgrader.run(&current, FULL, &facts()), current);
    assert_eq!(CreepType::Upgrader.run(&None, FULL, &facts()), Some(CreepTarget::Upgrade("ctrl".to_string())));
}

#[test]
fn role_names() {
    assert_eq!(CreepType::Builder.short_name(), "bu");
    assert_eq!(CreepType::Upgrader.short_name(), "up");
    assert_eq!(CreepType::Harvester.short_name(), "ha");
    assert_eq!(CreepType::Builder.name(), "builder");
    assert_eq!(CreepType::Upgrader.name(), "upgrader");
    assert_eq!(CreepType::Harvester.name(), "harvester");
    assert_eq!(CreepType::default(), CreepType::Upgrader);
}

#[test]
fn store_levels() {
    assert!(FULL.is_full() && !FULL.is_empty());
    assert!(EMPTY.is_empty() && !EMPTY.is_full());
    assert_eq!(EMPTY.held(), None);
    assert_eq!(HALF.held(), Some(20));
}

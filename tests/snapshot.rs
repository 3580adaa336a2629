use creep_tasks::snapshot::{RoomCache, RoomMemory};

fn snap(ids: &[&str], controller: Option<&str>) -> RoomMemory {
    RoomMemory {
        sources: ids.iter().map(|s| s.to_string()).collect(),
        controller: controller.map(|c| c.to_string()),
        mineral: None,
    }
}

#[test]
fn missing_snapshot_needs_rebuild() {
    let cache = RoomCache::new(100);
    let w1 = "W1N1".to_string();
    assert!(cache.get(&w1).is_none());
    assert!(cache.needs_rebuild(&w1, 0));
}

#[test]
fn stored_snapshot_is_read_back_until_stale() {
    let mut cache = RoomCache::new(100);
    let w1 = "W1N1".to_string();
    cache.store(w1.clone(), snap(&["a", "b"], Some("c")), 1000);
    let got = cache.get(&w1).unwrap();
    assert_eq!(got.sources, vec!["a".to_string(), "b".to_string()]);
    assert_eq!(got.controller, Some("c".to_string()));
    assert!(!cache.needs_rebuild(&w1, 1000));
    assert!(!cache.needs_rebuild(&w1, 1099));
    assert!(cache.needs_rebuild(&w1, 1100));
    assert!(cache.needs_rebuild(&w1, 999));
}

#[test]
fn last_write_wins_and_other_rooms_kept() {
    let mut cache = RoomCache::new(10);
    let w1 = "W1N1".to_string();
    let e2 = "E2S2".to_string();
    cache.store(w1.clone(), snap(&["a"], None), 5);
    cache.store(e2.clone(), snap(&["x"], Some("y")), 6);
    cache.store(w1.clone(), snap(&["b"], Some("k")), 7);
    assert_eq!(cache.entries.len(), 2);
    assert_eq!(cache.get(&w1).unwrap().sources, vec!["b".to_string()]);
    assert_eq!(cache.get(&e2).unwrap().sources, vec!["x".to_string()]);
    assert!(!cache.needs_rebuild(&w1, 16));
    assert!(cache.needs_rebuild(&e2, 16));
}

use creep_tasks::memory::{stale_records, CreepMemory};
use creep_tasks::role::CreepType;
use creep_tasks::target::CreepTarget;

fn sample() -> CreepMemory {
    CreepMemory {
        _move: None,
        working: Some(true),
        homeroom: Some("W1N1".to_string()),
        _type: Some(CreepType::Builder),
        target: Some(CreepTarget::Harvest("5bbcab9c9099fc012e6355a1".to_string())),
    }
}

fn same_record(a: &CreepMemory, b: &CreepMemory) -> bool {
    a.working == b.working && a.homeroom == b.homeroom && a._type == b._type && a.target == b.target
}

#[test]
fn encode_writes_json_object() {
    assert_eq!(
        sample().encode(),
        "{\"working\":true,\"homeroom\":\"W1N1\",\"type\":\"builder\",\"target\":{\"Harvest\":\"5bbcab9c9099fc012e6355a1\"}}"
    );
    assert_eq!(
        CreepMemory::default().encode(),
        "{\"working\":null,\"homeroom\":null,\"type\":null,\"target\":null}"
    );
}

#[test]
fn round_trip_keeps_record() {
    let m = sample();
    let back = CreepMemory::decode(&m.encode()).unwrap();
    assert!(same_record(&m, &back));
    for (w, t, g) in [
        (None, None, None),
        (Some(false), Some(CreepType::Upgrader), Some(CreepTarget::Upgrade("c1".to_string()))),
        (Some(true), Some(CreepType::Harvester), Some(CreepTarget::Spawn("s1".to_string()))),
        (None, Some(CreepType::Builder), Some(CreepTarget::Build("b1".to_string()))),
    ] {
        let m = CreepMemory { _move: None, working: w, homeroom: None, _type: t, target: g };
        let back = CreepMemory::decode(&m.encode()).unwrap();
        assert!(same_record(&m, &back));
    }
}

#[test]
fn decode_reads_host_text() {
    let m = CreepMemory::decode("{\"working\":false,\"homeroom\":\"E3S7\",\"type\":\"upgrader\",\"target\":{\"Upgrade\":\"abc\"}}").unwrap();
    assert_eq!(m.working, Some(false));
    assert_eq!(m.homeroom, Some("E3S7".to_string()));
    assert_eq!(m._type, Some(CreepType::Upgrader));
    assert_eq!(m.target, Some(CreepTarget::Upgrade("abc".to_string())));
    assert!(m._move.is_none());
}

#[test]
fn decode_rejects_other_text() {
    assert!(CreepMemory::decode("").is_none());
    assert!(CreepMemory::decode("{}").is_none());
    assert!(CreepMemory::decode("{\"working\":null,\"homeroom\":null,\"type\":null,\"target\":null} ").is_none());
    assert!(CreepMemory::decode("{\"working\":null,\"homeroom\":null,\"type\":\"miner\",\"target\":null}").is_none());
    assert!(CreepMemory::decode("{\"working\":null,\"homeroom\":null,\"type\":null,\"target\":{\"Mine\":\"x\"}}").is_none());
    assert!(CreepMemory::decode("{\"working\":yes,\"homeroom\":null,\"type\":null,\"target\":null}").is_none());
    assert!(CreepMemory::decode("{\"working\":null,\"homeroom\":\"a\\\"b\",\"type\":null,\"target\":null}").is_none());
}

#[test]
fn builders_set_fields() {
    let m = CreepMemory::default().set_homeroom(Some("W2N2".to_string())).set_type(Some(CreepType::Upgrader));
    assert_eq!(m.homeroom, Some("W2N2".to_string()));
    assert_eq!(m._type, Some(CreepType::Upgrader));
    assert_eq!(m.target, None);
}

#[test]
fn stale_records_of_units_gone() {
    let persisted = vec!["a".to_string(), "gone".to_string(), "b".to_string(), "old".to_string()];
    let alive = vec!["b".to_string(), "a".to_string(), "new".to_string()];
    assert_eq!(stale_records(&persisted, &alive), vec!["gone".to_string(), "old".to_string()]);
    assert!(stale_records(&vec![], &alive).is_empty());
    assert_eq!(stale_records(&persisted, &vec![]), persisted);
}

#[test]
fn amount_alive_counts_role_and_room() {
    let mk = |t: Option<CreepType>, room: Option<&str>| CreepMemory {
        _move: None,
        working: None,
        homeroom: room.map(|r| r.to_string()),
        _type: t,
        target: None,
    };
    let units = vec![
        mk(Some(CreepType::Upgrader), Some("W1N1")),
        mk(Some(CreepType::Upgrader), Some("W2N2")),
        mk(Some(CreepType::Builder), Some("W1N1")),
        mk(None, Some("W1N1")),
        mk(Some(CreepType::Upgrader), None),
    ];
    assert_eq!(CreepType::Upgrader.amount_alive(&units, &None), Some(3));
    assert_eq!(CreepType::Upgrader.amount_alive(&units, &Some("W1N1".to_string())), Some(1));
    assert_eq!(CreepType::Harvester.amount_alive(&units, &None), Some(0));
}

#[test]
fn total_of_type_uses_own_role_and_room() {
    let mk = |t: Option<CreepType>, room: Option<&str>| CreepMemory {
        _move: None,
        working: None,
        homeroom: room.map(|r| r.to_string()),
        _type: t,
        target: None,
    };
    let units = vec![
        mk(Some(CreepType::Builder), Some("W1N1")),
        mk(Some(CreepType::Builder), Some("W5N5")),
        mk(Some(CreepType::Upgrader), Some("W1N1")),
    ];
    let me = mk(Some(CreepType::Builder), Some("W1N1"));
    assert_eq!(me.total_of_type(&units, false), Some(2));
    assert_eq!(me.total_of_type(&units, true), Some(1));
    let homeless = mk(Some(CreepType::Builder), None);
    assert_eq!(homeless.total_of_type(&units, true), Some(2));
    assert_eq!(mk(None, Some("W1N1")).total_of_type(&units, false), None);
}

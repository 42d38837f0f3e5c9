use ddns::{
    aggregate, ipv4, plan_anomaly, zones_to_fetch, DnsZones, ObservedRecord, RecordConfig,
    RecordContent, RunOutcome, Task, TaskResult,
};

fn cfg(zone: &str, name: &str) -> RecordConfig {
    RecordConfig { zone_id: zone.to_string(), name: name.to_string() }
}

fn rec(zone: &str, name: &str, id: &str, content: RecordContent) -> ObservedRecord {
    ObservedRecord {
        zone_id: zone.to_string(),
        name: name.to_string(),
        record_id: id.to_string(),
        content,
    }
}

#[test]
fn noop_when_a_record_already_current() {
    let ip = ipv4(5, 6, 7, 8);
    let mut zones = DnsZones::new();
    zones.add_zone_listing(vec![rec(
        "zone-1",
        "home.example.com",
        "id-1",
        RecordContent::A { ip },
    )]);
    let config = cfg("zone-1", "home.example.com");
    assert!(Task::new(ip, &zones, &config).is_none());
    assert!(!plan_anomaly(&zones, &config));
}

#[test]
fn update_when_a_record_differs_keeps_identifier() {
    let mut zones = DnsZones::new();
    zones.add_zone_listing(vec![rec(
        "zone-1",
        "home.example.com",
        "id-1",
        RecordContent::A { ip: ipv4(1, 2, 3, 4) },
    )]);
    let config = cfg("zone-1", "home.example.com");
    let task = Task::new(ipv4(5, 6, 7, 8), &zones, &config).unwrap();
    assert_eq!(
        task,
        Task::Update {
            zone_id: "zone-1".to_string(),
            id: "id-1".to_string(),
            name: "home.example.com".to_string(),
        }
    );
}

#[test]
fn create_when_no_record_matches() {
    let zones = DnsZones::new();
    let config = cfg("zone-1", "vpn.example.com");
    let task = Task::new(ipv4(5, 6, 7, 8), &zones, &config).unwrap();
    assert_eq!(
        task,
        Task::Create { zone_id: "zone-1".to_string(), name: "vpn.example.com".to_string() }
    );
}

#[test]
fn non_a_record_yields_no_task_and_raises_the_anomaly() {
    let mut zones = DnsZones::new();
    zones.add_zone_listing(vec![rec(
        "zone-1",
        "home.example.com",
        "id-1",
        RecordContent::Other,
    )]);
    let config = cfg("zone-1", "home.example.com");
    assert!(Task::new(ipv4(5, 6, 7, 8), &zones, &config).is_none());
    assert!(plan_anomaly(&zones, &config));
}

#[test]
fn planning_is_deterministic_for_identical_inputs() {
    let mut zones = DnsZones::new();
    zones.add_zone_listing(vec![rec(
        "zone-1",
        "home.example.com",
        "id-1",
        RecordContent::A { ip: ipv4(1, 2, 3, 4) },
    )]);
    let config = cfg("zone-1", "home.example.com");
    let first = Task::new(ipv4(5, 6, 7, 8), &zones, &config);
    let second = Task::new(ipv4(5, 6, 7, 8), &zones, &config);
    assert_eq!(first, second);
}

#[test]
fn reconciliation_scenario_one_zone_two_records() {
    let current_ip = ipv4(5, 6, 7, 8);
    let configs = vec![cfg("zone-1", "home.example.com"), cfg("zone-1", "vpn.example.com")];

    let zone_list = zones_to_fetch(&configs);
    assert_eq!(zone_list, vec!["zone-1".to_string()]);

    let mut zones = DnsZones::new();
    zones.add_zone_listing(vec![rec(
        "zone-1",
        "home.example.com",
        "id-1",
        RecordContent::A { ip: ipv4(1, 2, 3, 4) },
    )]);

    let tasks: Vec<Task> =
        configs.iter().filter_map(|c| Task::new(current_ip, &zones, c)).collect();
    assert_eq!(tasks.len(), 2);
    assert!(matches!(tasks[0], Task::Update { .. }));
    assert!(matches!(tasks[1], Task::Create { .. }));

    let results: Vec<TaskResult> = tasks.iter().map(|t| t.finish(Ok(()))).collect();
    assert_eq!(
        results[0],
        TaskResult::Success { message: "Updated record: home.example.com".to_string() }
    );
    assert_eq!(
        results[1],
        TaskResult::Success { message: "Created record: vpn.example.com".to_string() }
    );

    assert_eq!(aggregate(&results), RunOutcome::Success);
}

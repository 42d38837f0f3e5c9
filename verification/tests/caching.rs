use ddns::{ipv4, zones_to_fetch, DnsZones, ObservedRecord, RecordConfig, RecordContent};

fn cfg(zone: &str, name: &str) -> RecordConfig {
    RecordConfig { zone_id: zone.to_string(), name: name.to_string() }
}

fn rec(zone: &str, name: &str, id: &str, content: RecordContent) -> ObservedRecord {
    ObservedRecord {
        zone_id: zone.to_string(),
        name: name.to_string(),
        record_id: id.to_string(),
        content,
    }
}

#[test]
fn zone_fetch_dedup_counts_distinct_zones() {
    let records = vec![
        cfg("zone-1", "a.example.com"),
        cfg("zone-1", "b.example.com"),
        cfg("zone-2", "c.example.com"),
        cfg("zone-1", "d.example.com"),
        cfg("zone-2", "e.example.com"),
    ];
    let zones = zones_to_fetch(&records);
    assert_eq!(zones, vec!["zone-1".to_string(), "zone-2".to_string()]);
}

#[test]
fn zones_to_fetch_of_empty_configuration_is_empty() {
    let records: Vec<RecordConfig> = vec![];
    assert!(zones_to_fetch(&records).is_empty());
}

#[test]
fn find_returns_first_match_in_fetch_order() {
    let mut zones = DnsZones::new();
    zones.add_zone_listing(vec![
        rec("zone-1", "home.example.com", "id-1", RecordContent::A { ip: ipv4(1, 2, 3, 4) }),
        rec("zone-1", "home.example.com", "id-2", RecordContent::A { ip: ipv4(9, 9, 9, 9) }),
    ]);
    let found = zones.find(&cfg("zone-1", "home.example.com")).unwrap();
    assert_eq!(found.record_id, "id-1");
}

#[test]
fn find_spans_every_added_listing() {
    let mut zones = DnsZones::new();
    zones.add_zone_listing(vec![rec(
        "zone-1",
        "home.example.com",
        "id-1",
        RecordContent::A { ip: ipv4(1, 2, 3, 4) },
    )]);
    zones.add_zone_listing(vec![rec("zone-2", "other.example.net", "id-9", RecordContent::Other)]);
    let found = zones.find(&cfg("zone-2", "other.example.net")).unwrap();
    assert_eq!(found.record_id, "id-9");
    assert_eq!(found.content, RecordContent::Other);
}

#[test]
fn find_requires_both_zone_and_name_to_match() {
    let mut zones = DnsZones::new();
    zones.add_zone_listing(vec![rec(
        "zone-1",
        "home.example.com",
        "id-1",
        RecordContent::A { ip: ipv4(1, 2, 3, 4) },
    )]);
    assert!(zones.find(&cfg("zone-1", "vpn.example.com")).is_none());
    assert!(zones.find(&cfg("zone-2", "home.example.com")).is_none());
}

#[test]
fn ipv4_packs_octets_most_significant_first() {
    assert_eq!(ipv4(1, 2, 3, 4), 0x01020304);
    assert_eq!(ipv4(255, 255, 255, 255), u32::MAX);
    assert_eq!(ipv4(0, 0, 0, 0), 0);
}

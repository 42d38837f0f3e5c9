use ddns::{
    aggregate, format_u64, ipv4, RecordWrite, Reporter, RunOutcome, Task, TaskResult,
};

fn success(message: &str) -> TaskResult {
    TaskResult::Success { message: message.to_string() }
}

fn failure(name: &str, error: &str) -> TaskResult {
    TaskResult::Failure { name: name.to_string(), error: error.to_string() }
}

#[test]
fn format_writes_the_decimal_numeral() {
    assert_eq!(format_u64(0), "0");
    assert_eq!(format_u64(7), "7");
    assert_eq!(format_u64(10), "10");
    assert_eq!(format_u64(907), "907");
    assert_eq!(format_u64(u64::MAX), "18446744073709551615");
}

#[test]
fn write_request_fixes_the_provider_policy() {
    let current_ip = ipv4(5, 6, 7, 8);
    let create = Task::Create {
        zone_id: "zone-1".to_string(),
        name: "vpn.example.com".to_string(),
    };
    assert_eq!(
        create.write_request(current_ip),
        RecordWrite {
            zone_id: "zone-1".to_string(),
            record_id: None,
            name: "vpn.example.com".to_string(),
            ip: current_ip,
            ttl: 1,
            proxied: false,
        }
    );
    let update = Task::Update {
        zone_id: "zone-1".to_string(),
        id: "id-1".to_string(),
        name: "home.example.com".to_string(),
    };
    assert_eq!(
        update.write_request(current_ip),
        RecordWrite {
            zone_id: "zone-1".to_string(),
            record_id: Some("id-1".to_string()),
            name: "home.example.com".to_string(),
            ip: current_ip,
            ttl: 1,
            proxied: false,
        }
    );
}

#[test]
fn finish_reports_what_was_done_to_which_name() {
    let create = Task::Create {
        zone_id: "zone-1".to_string(),
        name: "vpn.example.com".to_string(),
    };
    assert_eq!(create.finish(Ok(())), success("Created record: vpn.example.com"));
    let update = Task::Update {
        zone_id: "zone-1".to_string(),
        id: "id-1".to_string(),
        name: "home.example.com".to_string(),
    };
    assert_eq!(update.finish(Ok(())), success("Updated record: home.example.com"));
}

#[test]
fn finish_keeps_the_provider_error_and_the_name() {
    let update = Task::Update {
        zone_id: "zone-1".to_string(),
        id: "id-1".to_string(),
        name: "home.example.com".to_string(),
    };
    assert_eq!(
        update.finish(Err("api rejected the write".to_string())),
        failure("home.example.com", "api rejected the write")
    );
}

#[test]
fn aggregate_states_exactly_how_many_updates_failed() {
    let results = vec![
        success("Updated record: a.example.com"),
        failure("b.example.com", "timeout"),
        success("Created record: c.example.com"),
        failure("d.example.com", "denied"),
        success("Updated record: e.example.com"),
    ];
    assert_eq!(
        aggregate(&results),
        RunOutcome::Failure {
            failure_count: 2,
            message: "2 update(s) have failed".to_string(),
        }
    );
}

#[test]
fn aggregate_of_single_failure_states_one() {
    let results = vec![failure("a.example.com", "boom")];
    assert_eq!(
        aggregate(&results),
        RunOutcome::Failure {
            failure_count: 1,
            message: "1 update(s) have failed".to_string(),
        }
    );
}

#[test]
fn empty_results_aggregate_to_success() {
    let results: Vec<TaskResult> = vec![];
    assert_eq!(aggregate(&results), RunOutcome::Success);
}

#[test]
fn notifier_failures_never_move_the_outcome() {
    let results = vec![
        success("Updated record: a.example.com"),
        failure("b.example.com", "timeout"),
        success("Created record: c.example.com"),
    ];

    let mut with_notifier_failing = Reporter::new();
    let mut with_notifier_fine = Reporter::new();
    for r in &results {
        with_notifier_failing.observe(r, true);
        with_notifier_fine.observe(r, false);
    }
    let failing = with_notifier_failing.outcome();
    let fine = with_notifier_fine.outcome();
    assert_eq!(failing, fine);
    assert_eq!(failing, aggregate(&results));
    assert_eq!(
        failing,
        RunOutcome::Failure {
            failure_count: 1,
            message: "1 update(s) have failed".to_string(),
        }
    );
}

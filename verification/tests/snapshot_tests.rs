use resticmgr::outcome::{CmdOutput, TaskOutcome};
use resticmgr::snapshots::{classify_verify_output, verify_report, SnapshotRecord};

fn ran(code: Option<i32>, stdout: &str, stderr: &str) -> Result<CmdOutput, String> {
    Ok(CmdOutput { exit_code: code, stdout: stdout.to_string(), stderr: stderr.to_string() })
}

// 2020-01-01T00:00:00Z as seconds since the Unix epoch.
const T0: i64 = 1577836800;

const ONE_SNAPSHOT: &str = r#"[{"time":"2020-01-01T00:00:00Z","parent":null,"tree":"tree1","paths":["/home","/etc"],"hostname":"box","username":"root","uid":0,"gid":0,"id":"abcdef","short_id":"abcd"}]"#;

#[test]
fn verify_formats_recency_of_last_snapshot() {
    // 1 day, 1 hour, 1 minute and 1 second later.
    let r = classify_verify_output(ran(Some(0), ONE_SNAPSHOT, ""), T0 + 90061);
    match r {
        TaskOutcome::Success(m) => assert_eq!(
            m,
            "Last backed up 1 days, (25 hours), (1501 mins) ago. Paths: /home, /etc"
        ),
        _ => panic!("expected success"),
    }
}

#[test]
fn verify_uses_last_record_of_the_listing() {
    let two = r#"[
        {"time":"2019-01-01T00:00:00Z","tree":"t1","paths":["/old"],"hostname":"box","id":"id1","short_id":"s1"},
        {"time":"2020-01-01T00:00:00Z","tree":"t2","paths":["/new"],"hostname":"box","id":"id2","short_id":"s2"}
    ]"#;
    let r = classify_verify_output(ran(Some(0), two, ""), T0 + 60);
    match r {
        TaskOutcome::Success(m) => {
            assert_eq!(m, "Last backed up 0 days, (0 hours), (1 mins) ago. Paths: /new")
        }
        _ => panic!("expected success"),
    }
}

#[test]
fn verify_negative_elapsed_counts_backwards() {
    // The snapshot claims a time after the clock's reading.
    let r = classify_verify_output(ran(Some(0), ONE_SNAPSHOT, ""), T0 - 90061);
    match r {
        TaskOutcome::Success(m) => assert_eq!(
            m,
            "Last backed up -1 days, (-25 hours), (-1501 mins) ago. Paths: /home, /etc"
        ),
        _ => panic!("expected success"),
    }
}

#[test]
fn verify_empty_listing_is_no_snapshots_found() {
    let r = classify_verify_output(ran(Some(0), "[]", ""), T0);
    assert!(matches!(r, TaskOutcome::Failure(m) if m == "no snapshots found"));
}

#[test]
fn verify_unparseable_output_is_parse_failure() {
    let r = classify_verify_output(ran(Some(0), "this is not json", ""), T0);
    match r {
        TaskOutcome::Failure(m) => {
            assert!(m.starts_with("Couldn't parse response from restic: "))
        }
        _ => panic!("expected failure"),
    }
}

#[test]
fn verify_record_missing_required_field_is_parse_failure() {
    let missing_paths = r#"[{"time":"2020-01-01T00:00:00Z","tree":"t","hostname":"box","id":"i","short_id":"s"}]"#;
    let r = classify_verify_output(ran(Some(0), missing_paths, ""), T0);
    match r {
        TaskOutcome::Failure(m) => {
            assert!(m.starts_with("Couldn't parse response from restic: "));
            assert!(m.contains("paths"));
        }
        _ => panic!("expected failure"),
    }
}

#[test]
fn verify_bad_timestamp_is_parse_failure() {
    let bad_time = r#"[{"time":"yesterday","tree":"t","paths":["/a"],"hostname":"box","id":"i","short_id":"s"}]"#;
    let r = classify_verify_output(ran(Some(0), bad_time, ""), T0);
    match r {
        TaskOutcome::Failure(m) => {
            assert!(m.starts_with("Couldn't parse response from restic: "))
        }
        _ => panic!("expected failure"),
    }
}

#[test]
fn verify_nonzero_exit_is_failure_with_stderr() {
    let r = classify_verify_output(ran(Some(1), "", "repository does not exist"), T0);
    assert!(matches!(r, TaskOutcome::Failure(m) if m == "repository does not exist"));
}

#[test]
fn verify_spawn_error_is_failure() {
    let r = classify_verify_output(Err("No such file or directory".to_string()), T0);
    assert!(matches!(r, TaskOutcome::Failure(m) if m == "No such file or directory"));
}

#[test]
fn verify_report_of_empty_records_regardless_of_clock() {
    for now in [0i64, T0, -5] {
        let r = verify_report(&Vec::new(), now);
        assert!(matches!(r, TaskOutcome::Failure(m) if m == "no snapshots found"));
    }
}

fn record(time_unix: i64, paths: Vec<&str>) -> SnapshotRecord {
    SnapshotRecord {
        time_unix,
        parent: None,
        tree: "tree".to_string(),
        paths: paths.into_iter().map(|p| p.to_string()).collect(),
        hostname: "box".to_string(),
        username: None,
        uid: None,
        gid: None,
        id: "id".to_string(),
        short_id: "sid".to_string(),
    }
}

#[test]
fn repeated_verification_agrees_up_to_elapsed_fields() {
    let records = vec![record(T0, vec!["/srv", "/var"])];
    let first = verify_report(&records, T0 + 3600);
    let second = verify_report(&records, T0 + 7200);
    let (a, b) = match (first, second) {
        (TaskOutcome::Success(a), TaskOutcome::Success(b)) => (a, b),
        _ => panic!("expected two successes"),
    };
    let tail_a = a.split(" mins) ago. Paths: ").nth(1).unwrap().to_string();
    let tail_b = b.split(" mins) ago. Paths: ").nth(1).unwrap().to_string();
    assert_eq!(tail_a, tail_b);
    assert_eq!(tail_a, "/srv, /var");
    assert_ne!(a, b);

    // With an unchanged clock the whole report agrees.
    let third = verify_report(&records, T0 + 3600);
    let fourth = verify_report(&records, T0 + 3600);
    match (third, fourth) {
        (TaskOutcome::Success(c), TaskOutcome::Success(d)) => assert_eq!(c, d),
        _ => panic!("expected two successes"),
    }
}

#[test]
fn verify_tolerates_fields_it_does_not_read() {
    let extra = r#"[{"time":"2020-01-01T00:00:00Z","tree":"t","paths":["/a"],"hostname":"box","id":"i","short_id":"s","tags":["nightly"],"program_version":"restic 0.16.0"}]"#;
    let r = classify_verify_output(ran(Some(0), extra, ""), T0 + 120);
    match r {
        TaskOutcome::Success(m) => {
            assert_eq!(m, "Last backed up 0 days, (0 hours), (2 mins) ago. Paths: /a")
        }
        _ => panic!("expected success"),
    }
}

#[test]
fn verify_reads_wrong_typed_optional_fields_as_absent() {
    // The optional fields are not read by the report; a wrong-typed one
    // counts as absent rather than failing the whole listing.
    let odd = r#"[{"time":"2020-01-01T00:00:00Z","tree":"t","paths":["/a"],"hostname":"box","id":"i","short_id":"s","uid":"root","parent":42}]"#;
    let r = classify_verify_output(ran(Some(0), odd, ""), T0 + 60);
    match r {
        TaskOutcome::Success(m) => {
            assert_eq!(m, "Last backed up 0 days, (0 hours), (1 mins) ago. Paths: /a")
        }
        _ => panic!("expected success"),
    }
}

#[test]
fn verify_top_level_object_is_parse_failure() {
    let r = classify_verify_output(ran(Some(0), r#"{"snapshots":[]}"#, ""), T0);
    match r {
        TaskOutcome::Failure(m) => {
            assert!(m.starts_with("Couldn't parse response from restic: "))
        }
        _ => panic!("expected failure"),
    }
}

#[test]
fn verify_fractional_second_timestamp_is_truncated() {
    let with_nanos = r#"[{"time":"2020-01-01T00:00:00.987654321+00:00","tree":"t","paths":["/a"],"hostname":"box","id":"i","short_id":"s"}]"#;
    let r = classify_verify_output(ran(Some(0), with_nanos, ""), T0 + 60);
    match r {
        TaskOutcome::Success(m) => {
            assert_eq!(m, "Last backed up 0 days, (0 hours), (1 mins) ago. Paths: /a")
        }
        _ => panic!("expected success"),
    }
}

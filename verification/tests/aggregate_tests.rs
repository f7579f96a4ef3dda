use resticmgr::aggregate::aggregate;
use resticmgr::outcome::TaskOutcome;

fn results(entries: Vec<(&str, TaskOutcome)>) -> Vec<(String, TaskOutcome)> {
    entries.into_iter().map(|(n, o)| (n.to_string(), o)).collect()
}

#[test]
fn aggregate_counts_one_failure_line_per_failure() {
    let rs = results(vec![
        ("r1", TaskOutcome::Success("ok one".to_string())),
        ("r2", TaskOutcome::Failure("broke two".to_string())),
        ("r3", TaskOutcome::PartialSuccess("mostly three".to_string())),
        ("r4", TaskOutcome::Failure("broke four".to_string())),
        ("r5", TaskOutcome::Success("ok five".to_string())),
    ]);
    let (msgs, errors) = aggregate(&rs);
    assert_eq!(errors.len(), 2);
    assert!(msgs.contains(&"ok one".to_string()));
    assert!(msgs.contains(&"mostly three".to_string()));
    assert!(msgs.contains(&"ok five".to_string()));
    assert!(!msgs.contains(&"broke two".to_string()));
    assert!(!msgs.contains(&"broke four".to_string()));
}

#[test]
fn aggregate_emits_exact_lines_in_order() {
    let rs = results(vec![
        ("alpha", TaskOutcome::Success("all good".to_string())),
        ("beta", TaskOutcome::Failure("oh no".to_string())),
    ]);
    let (msgs, errors) = aggregate(&rs);
    assert_eq!(
        msgs,
        vec![
            "Repository 'alpha' results:".to_string(),
            "all good".to_string(),
            "Repository 'beta' results:".to_string(),
        ]
    );
    assert_eq!(errors, vec!["Error for 'beta': oh no".to_string()]);
}

#[test]
fn aggregate_partial_success_payload_stays_out_of_failure_block() {
    let rs = results(vec![(
        "repo",
        TaskOutcome::PartialSuccess("stdout textstderr text".to_string()),
    )]);
    let (msgs, errors) = aggregate(&rs);
    assert!(errors.is_empty());
    assert_eq!(
        msgs,
        vec![
            "Repository 'repo' results:".to_string(),
            "stdout textstderr text".to_string(),
        ]
    );
}

#[test]
fn aggregate_empty_input_yields_empty_blocks() {
    let (msgs, errors) = aggregate(&Vec::new());
    assert!(msgs.is_empty());
    assert!(errors.is_empty());
}

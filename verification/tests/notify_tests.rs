use resticmgr::aggregate::aggregate;
use resticmgr::notify::{
    classify_smtp_test, decide_notification, resolve_send_result, smtp_test_request,
};
use resticmgr::outcome::TaskOutcome;
use resticmgr::ErrorKind;

fn strings(v: Vec<&str>) -> Vec<String> {
    v.into_iter().map(|s| s.to_string()).collect()
}

#[test]
fn success_without_mail_prints_to_stdout() {
    let p = decide_notification(false, &strings(vec!["a", "b"]), &Vec::new());
    assert!(p.ok);
    assert_eq!(p.stdout_message, Some("a\nb".to_string()));
    assert!(p.stderr_message.is_none());
    assert!(p.email.is_none());
}

#[test]
fn success_with_mail_sends_one_email_with_all_headers() {
    let rs: Vec<(String, TaskOutcome)> = vec![
        ("r1".to_string(), TaskOutcome::Success("one".to_string())),
        ("r2".to_string(), TaskOutcome::Success("two".to_string())),
        ("r3".to_string(), TaskOutcome::Success("three".to_string())),
    ];
    let (msgs, errors) = aggregate(&rs);
    assert!(errors.is_empty());
    let p = decide_notification(true, &msgs, &errors);
    assert!(p.ok);
    assert!(p.stdout_message.is_none());
    assert!(p.stderr_message.is_none());
    let email = p.email.expect("exactly one email should be planned");
    assert_eq!(email.subject, "Restic results");
    assert!(email.body.contains("Repository 'r1' results:"));
    assert!(email.body.contains("Repository 'r2' results:"));
    assert!(email.body.contains("Repository 'r3' results:"));
}

#[test]
fn any_failure_sends_one_email_with_only_failure_entries() {
    let rs: Vec<(String, TaskOutcome)> = vec![
        ("good".to_string(), TaskOutcome::Success("fine".to_string())),
        ("bad".to_string(), TaskOutcome::Failure("exploded".to_string())),
    ];
    let (msgs, errors) = aggregate(&rs);
    // Regardless of the mail-on-success flag.
    for flag in [false, true] {
        let p = decide_notification(flag, &msgs, &errors);
        assert!(!p.ok);
        assert_eq!(p.stderr_message, Some("Error for 'bad': exploded".to_string()));
        assert!(p.stdout_message.is_none());
        let email = p.email.as_ref().expect("exactly one email should be planned");
        assert_eq!(email.subject, "Restic results");
        assert_eq!(email.body, "Error for 'bad': exploded");
        assert!(!email.body.contains("fine"));
    }
}

#[test]
fn nothing_to_report_plans_nothing() {
    let p = decide_notification(true, &Vec::new(), &Vec::new());
    assert!(p.ok);
    assert!(p.stdout_message.is_none());
    assert!(p.stderr_message.is_none());
    assert!(p.email.is_none());
}

#[test]
fn send_failure_never_changes_the_decided_status() {
    let (w, ok) = resolve_send_result(true, false, Some("relay refused".to_string()));
    assert!(ok);
    assert_eq!(
        w,
        Some("Unable to send notification email for results: relay refused".to_string())
    );

    let (w, ok) = resolve_send_result(false, true, Some("relay refused".to_string()));
    assert!(!ok);
    assert_eq!(
        w,
        Some("Unable to send notification email for errors: relay refused".to_string())
    );

    let (w, ok) = resolve_send_result(true, false, None);
    assert!(ok);
    assert!(w.is_none());
}

#[test]
fn smtp_test_email_has_fixed_subject_and_body() {
    let e = smtp_test_request();
    assert_eq!(e.subject, "Resticmgr SMTP notification test");
    assert_eq!(e.body, "This is a test email from resticmgr.");
}

#[test]
fn smtp_test_outcome_reports_both_ways() {
    assert_eq!(classify_smtp_test(Ok(())).unwrap(), "SMTP test sent");
    let err = classify_smtp_test(Err("connection reset".to_string())).unwrap_err();
    assert_eq!(err.kind, ErrorKind::Notification);
    assert_eq!(err.details, "SMTP test failed: connection reset");
}

use resticmgr::outcome::{classify_backup_output, classify_init_output, CmdOutput, TaskOutcome};
use resticmgr::ErrorKind;

fn output(code: Option<i32>, stdout: &str, stderr: &str) -> CmdOutput {
    CmdOutput { exit_code: code, stdout: stdout.to_string(), stderr: stderr.to_string() }
}

#[test]
fn backup_exit_zero_is_success_with_stdout() {
    let r = classify_backup_output(Ok(output(Some(0), "saved 12 files", "noise")));
    match r {
        TaskOutcome::Success(m) => assert_eq!(m, "saved 12 files"),
        _ => panic!("expected success"),
    }
}

#[test]
fn backup_exit_three_is_partial_success_with_both_streams() {
    let r = classify_backup_output(Ok(output(Some(3), "saved most files\n", "skipped /root\n")));
    match r {
        TaskOutcome::PartialSuccess(m) => {
            assert_eq!(m, "saved most files\nskipped /root\n");
            assert!(m.contains("saved most files"));
            assert!(m.contains("skipped /root"));
        }
        _ => panic!("expected partial success"),
    }
}

#[test]
fn backup_other_exit_is_failure_with_stderr() {
    let r = classify_backup_output(Ok(output(Some(1), "partial out", "repository locked")));
    match r {
        TaskOutcome::Failure(m) => assert_eq!(m, "repository locked"),
        _ => panic!("expected failure"),
    }
}

#[test]
fn backup_killed_without_code_is_failure() {
    let r = classify_backup_output(Ok(output(None, "", "killed")));
    assert!(matches!(r, TaskOutcome::Failure(m) if m == "killed"));
}

#[test]
fn backup_spawn_error_is_failure_with_spawn_message() {
    let r = classify_backup_output(Err("No such file or directory".to_string()));
    assert!(matches!(r, TaskOutcome::Failure(m) if m == "No such file or directory"));
}

#[test]
fn init_exit_zero_is_ok() {
    assert!(classify_init_output(Ok(output(Some(0), "created", ""))).is_ok());
}

#[test]
fn init_nonzero_exit_is_execution_error_with_stderr() {
    let r = classify_init_output(Ok(output(Some(1), "", "config file already exists")));
    match r {
        Err(e) => {
            assert_eq!(e.kind, ErrorKind::Execution);
            assert_eq!(e.details, "config file already exists");
        }
        Ok(_) => panic!("expected an error"),
    }
}

#[test]
fn init_spawn_error_is_execution_error() {
    let r = classify_init_output(Err("spawn failed".to_string()));
    match r {
        Err(e) => {
            assert_eq!(e.kind, ErrorKind::Execution);
            assert_eq!(e.details, "spawn failed");
        }
        Ok(_) => panic!("expected an error"),
    }
}

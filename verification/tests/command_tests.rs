use resticmgr::command::{build_backup_command, build_init_command, build_verify_command};
use resticmgr::config::Repo;

fn plain(url: &str) -> Repo {
    Repo { url: url.to_string(), env: None, options: None }
}

fn full(url: &str) -> Repo {
    Repo {
        url: url.to_string(),
        env: Some(vec![(
            "AWS_ACCESS_KEY_ID".to_string(),
            "SECRET-REDACTED".to_string(),
        )]),
        options: Some(vec![
            ("s3.storage-class".to_string(), "STANDARD_IA".to_string()),
            ("sftp.command".to_string(), "ssh -i key".to_string()),
        ]),
    }
}

#[test]
fn init_command_targets_the_repository() {
    let c = build_init_command(&plain("sftp://host/backup"));
    assert_eq!(c.program, "restic");
    assert_eq!(c.args, vec!["init", "-r", "sftp://host/backup"]);
    assert!(c.env.is_empty());
}

#[test]
fn backup_command_lists_options_and_directories_in_order() {
    let dirs = vec!["/home".to_string(), "/etc".to_string()];
    let c = build_backup_command(&full("s3:bucket"), &dirs);
    assert_eq!(c.program, "restic");
    assert_eq!(
        c.args,
        vec![
            "backup",
            "--json",
            "-q",
            "-r",
            "s3:bucket",
            "-o",
            "s3.storage-class=STANDARD_IA",
            "-o",
            "sftp.command=ssh -i key",
            "/home",
            "/etc",
        ]
    );
    assert_eq!(
        c.env,
        vec![("AWS_ACCESS_KEY_ID".to_string(), "SECRET-REDACTED".to_string())]
    );
}

#[test]
fn verify_command_asks_for_the_last_snapshot_as_json() {
    let c = build_verify_command(&plain("rest:https://host"));
    assert_eq!(c.program, "restic");
    assert_eq!(
        c.args,
        vec!["snapshots", "--last", "--json", "-r", "rest:https://host"]
    );
    assert!(c.env.is_empty());
}

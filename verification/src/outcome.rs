//! Classification of engine subprocess results into task outcomes.
//!
//! The engine's exit-code contract: 0 is success, 3 is a partial backup
//! (completed, but some files were skipped), anything else is failure.
use vstd::prelude::*;

use crate::ErrorKind;
use crate::MyError;

verus! {

/// What a finished engine subprocess left behind: its exit code (absent
/// when the process was terminated without one) and its captured output
/// streams.
#[derive(Debug)]
pub struct CmdOutput {
    pub exit_code: Option<i32>,
    pub stdout: String,
    pub stderr: String,
}

/// The outcome of one task: success, success with skipped files, or
/// failure, each carrying its report or error text.
#[derive(Debug)]
pub enum TaskOutcome {
    Success(String),
    PartialSuccess(String),
    Failure(String),
}

impl TaskOutcome {
    /// The report or error text carried by this outcome.
    pub open spec fn payload(self) -> Seq<char> {
        match self {
            TaskOutcome::Success(m) => m@,
            TaskOutcome::PartialSuccess(m) => m@,
            TaskOutcome::Failure(m) => m@,
        }
    }
}

/// Classify a backup subprocess result. Exit code 0 is a success carrying
/// standard output; exit code 3 is a partial success carrying standard
/// output followed by standard error, so skipped paths stay visible; any
/// other exit, or a failure to spawn, is a failure carrying the error text.
pub fn classify_backup_output(run: Result<CmdOutput, String>) -> (r: TaskOutcome)
    ensures
        run matches Err(e) ==> (r matches TaskOutcome::Failure(m) && m@ == e@),
        run matches Ok(o) ==> (o.exit_code == Some(0i32) ==> (r matches TaskOutcome::Success(m)
            && m@ == o.stdout@)),
        run matches Ok(o) ==> (o.exit_code == Some(3i32) ==> (r matches TaskOutcome::PartialSuccess(
        m) && m@ == o.stdout@ + o.stderr@)),
        run matches Ok(o) ==> ((o.exit_code != Some(0i32) && o.exit_code != Some(3i32)) ==> (
        r matches TaskOutcome::Failure(m) && m@ == o.stderr@)),
{
    match run {
        Ok(o) => {
            match o.exit_code {
                Some(code) => {
                    if code == 0 {
                        TaskOutcome::Success(o.stdout)
                    } else if code == 3 {
                        TaskOutcome::PartialSuccess(o.stdout.concat(o.stderr.as_str()))
                    } else {
                        TaskOutcome::Failure(o.stderr)
                    }
                },
                None => TaskOutcome::Failure(o.stderr),
            }
        },
        Err(e) => TaskOutcome::Failure(e),
    }
}

/// Classify a repository-initialization subprocess result: success exactly
/// on exit code 0, otherwise an execution error carrying standard error or
/// the spawn error text.
pub fn classify_init_output(run: Result<CmdOutput, String>) -> (r: Result<(), MyError>)
    ensures
        r is Ok <==> (run matches Ok(o) && o.exit_code == Some(0i32)),
        run matches Err(e) ==> (r matches Err(err) && err.kind == ErrorKind::Execution
            && err.details@ == e@),
        run matches Ok(o) ==> (o.exit_code != Some(0i32) ==> (r matches Err(err) && err.kind
            == ErrorKind::Execution && err.details@ == o.stderr@)),
{
    match run {
        Ok(o) => {
            match o.exit_code {
                Some(code) => {
                    if code == 0 {
                        Ok(())
                    } else {
                        Err(MyError::new(ErrorKind::Execution, o.stderr))
                    }
                },
                None => Err(MyError::new(ErrorKind::Execution, o.stderr)),
            }
        },
        Err(e) => Err(MyError::new(ErrorKind::Execution, e)),
    }
}

} // verus!

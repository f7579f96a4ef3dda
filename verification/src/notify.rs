//! The notification state machine: choose between console output and
//! email, and fix the run's final status.
//!
//! With no failures the success block is printed, or emailed when asked
//! for; with any failure the failure block goes to standard error and is
//! always emailed. The run succeeds exactly when the failure block is
//! empty; an email-send failure never changes the already-decided status.
use vstd::prelude::*;

use crate::strutil::join_seq;
use crate::strutil::join_strings;
use crate::ErrorKind;
use crate::MyError;

verus! {

/// One email to send: subject and plaintext body.
pub struct EmailRequest {
    pub subject: String,
    pub body: String,
}

/// What the run does after aggregation: what to print where, which email
/// to send (at most one), and whether the run counts as successful.
pub struct NotificationPlan {
    pub stdout_message: Option<String>,
    pub stderr_message: Option<String>,
    pub email: Option<EmailRequest>,
    pub ok: bool,
}

/// Decide between console output and email. With failures present the
/// failure block goes to standard error and is emailed unconditionally;
/// with none, a nonempty success block is printed, or emailed when
/// `mail_on_success` asks for it. The run is successful exactly when
/// there are no failures.
pub fn decide_notification(mail_on_success: bool, msgs: &Vec<String>, errors: &Vec<String>) -> (p:
    NotificationPlan)
    ensures
        p.ok <==> errors@.len() == 0,
        errors@.len() > 0 ==> (p.email matches Some(e) && e.subject@ == "Restic results"@
            && e.body@ == join_seq(errors.deep_view(), "\n"@)),
        errors@.len() > 0 ==> (p.stderr_message matches Some(s) && s@ == join_seq(
            errors.deep_view(),
            "\n"@,
        )),
        errors@.len() > 0 ==> p.stdout_message is None,
        errors@.len() == 0 ==> p.stderr_message is None,
        (errors@.len() == 0 && msgs@.len() > 0 && mail_on_success) ==> (p.email matches Some(e)
            && e.subject@ == "Restic results"@ && e.body@ == join_seq(msgs.deep_view(), "\n"@)
            && p.stdout_message is None),
        (errors@.len() == 0 && msgs@.len() > 0 && !mail_on_success) ==> (p.stdout_message matches
            Some(s) && s@ == join_seq(msgs.deep_view(), "\n"@) && p.email is None),
        (errors@.len() == 0 && msgs@.len() == 0) ==> (p.email is None && p.stdout_message is None),
{
    if errors.len() > 0 {
        let text = join_strings(errors, "\n");
        NotificationPlan {
            stdout_message: None,
            stderr_message: Some(text.clone()),
            email: Some(
                EmailRequest { subject: String::from_str("Restic results"), body: text },
            ),
            ok: false,
        }
    } else if msgs.len() > 0 {
        let text = join_strings(msgs, "\n");
        if mail_on_success {
            NotificationPlan {
                stdout_message: None,
                stderr_message: None,
                email: Some(
                    EmailRequest { subject: String::from_str("Restic results"), body: text },
                ),
                ok: true,
            }
        } else {
            NotificationPlan {
                stdout_message: Some(text),
                stderr_message: None,
                email: None,
                ok: true,
            }
        }
    } else {
        NotificationPlan { stdout_message: None, stderr_message: None, email: None, ok: true }
    }
}

/// The console warning for a failed email send: one wording for the
/// failure-block email, another for the success-block email.
pub open spec fn send_warning(for_failures: bool, err: Seq<char>) -> Seq<char> {
    if for_failures {
        "Unable to send notification email for errors: "@ + err
    } else {
        "Unable to send notification email for results: "@ + err
    }
}

/// Fold the email send result into the run: a send failure is surfaced
/// as a console warning only, and the final status is the plan's status
/// unchanged — a failed send neither rescues a failed run nor fails a
/// successful one.
pub fn resolve_send_result(plan_ok: bool, for_failures: bool, send_error: Option<String>) -> (r: (
    Option<String>,
    bool,
))
    ensures
        r.1 == plan_ok,
        send_error matches Some(e) ==> (r.0 matches Some(w) && w@ == send_warning(
            for_failures,
            e@,
        )),
        send_error is None ==> r.0 is None,
{
    match send_error {
        Some(e) => {
            let mut w = if for_failures {
                String::from_str("Unable to send notification email for errors: ")
            } else {
                String::from_str("Unable to send notification email for results: ")
            };
            w.append(e.as_str());
            (Some(w), plan_ok)
        },
        None => (None, plan_ok),
    }
}

/// The test email sent by the SMTP check.
pub fn smtp_test_request() -> (e: EmailRequest)
    ensures
        e.subject@ == "Resticmgr SMTP notification test"@,
        e.body@ == "This is a test email from resticmgr."@,
{
    EmailRequest {
        subject: String::from_str("Resticmgr SMTP notification test"),
        body: String::from_str("This is a test email from resticmgr."),
    }
}

/// Classify the SMTP check's send result: success carries the console
/// confirmation, failure a notification error naming the cause.
pub fn classify_smtp_test(send_result: Result<(), String>) -> (r: Result<String, MyError>)
    ensures
        r is Ok <==> send_result is Ok,
        r matches Ok(m) ==> m@ == "SMTP test sent"@,
        send_result matches Err(e) ==> (r matches Err(err) && err.kind == ErrorKind::Notification
            && err.details@ == "SMTP test failed: "@ + e@),
{
    match send_result {
        Ok(_) => Ok(String::from_str("SMTP test sent")),
        Err(e) => {
            let mut msg = String::from_str("SMTP test failed: ");
            msg.append(e.as_str());
            Err(MyError::new(ErrorKind::Notification, msg))
        },
    }
}

} // verus!

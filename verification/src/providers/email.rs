//! E-mail notifications: which messages may be sent and how the notifications
//! about deployments are written.
use vstd::prelude::*;
use vstd::string::*;
use crate::error::{AppError, EmailError, ValidationError, Result};
use crate::validation::invalid;
use crate::text::{decimal_chars, push_decimal};
use crate::validation::scan_byte;

verus! {

pub const SUBJECT_LENGTH_MAX: usize = 998;
pub const BODY_LENGTH_MAX: usize = 10485760;

#[derive(Debug, Clone)]
pub struct EmailMessage {
    pub to: String,
    pub subject: String,
    pub body: String,
    pub html: bool,
}

#[derive(Debug, Clone, Copy, PartialEq, Eq, Structural)]
pub enum NotificationType {
    DeploymentStarted,
    DeploymentSucceeded,
    DeploymentFailed,
    SecurityAlert,
    SystemNotification,
}

pub open spec fn body_head() -> Seq<char> {
    "<!DOCTYPE html>\n<html>\n<head>\n    <meta charset=\"utf-8\">\n</head>\n<body style=\"font-family: -apple-system, BlinkMacSystemFont, 'Segoe UI', Roboto, sans-serif; padding: 20px;\">\n    <div style=\"max-width: 600px; margin: 0 auto; border: 1px solid #e0e0e0; border-radius: 8px; overflow: hidden;\">\n        <div style=\"background-color: "@
}

pub open spec fn body_after_color() -> Seq<char> {
    "; color: white; padding: 20px;\">\n            <h1 style=\"margin: 0; font-size: 24px;\">"@
}

pub open spec fn body_after_prefix() -> Seq<char> {
    "</h1>\n        </div>\n        <div style=\"padding: 20px;\">\n            <h2 style=\"margin-top: 0;\">"@
}

pub open spec fn body_after_title() -> Seq<char> {
    "</h2>\n            <div style=\"background-color: #f5f5f5; padding: 15px; border-radius: 4px; white-space: pre-wrap;\">"@
}

pub open spec fn body_tail() -> Seq<char> {
    "</div>\n        </div>\n        <div style=\"background-color: #f9f9f9; padding: 15px; text-align: center; font-size: 12px; color: #666;\">\n            Sent by RustDeploy\n        </div>\n    </div>\n</body>\n</html>"@
}

/// The HTML page of a notification.
pub open spec fn notification_body(color: Seq<char>, prefix: Seq<char>, title: Seq<char>, details: Seq<char>) -> Seq<char> {
    body_head() + color + body_after_color() + prefix + body_after_prefix() + title + body_after_title() + details + body_tail()
}

impl NotificationType {
    /// The headline of a notification of this kind.
    pub open spec fn headline(self) -> Seq<char> {
        match self {
            NotificationType::DeploymentStarted => "\u{1f680} Deployment Started"@,
            NotificationType::DeploymentSucceeded => "\u{2705} Deployment Succeeded"@,
            NotificationType::DeploymentFailed => "\u{274c} Deployment Failed"@,
            NotificationType::SecurityAlert => "\u{1f512} Security Alert"@,
            NotificationType::SystemNotification => "\u{2139}\u{fe0f} System Notification"@,
        }
    }

    /// The banner colour of a notification of this kind.
    pub open spec fn color(self) -> Seq<char> {
        match self {
            NotificationType::DeploymentStarted => "#3498db"@,
            NotificationType::DeploymentSucceeded => "#27ae60"@,
            NotificationType::DeploymentFailed => "#e74c3c"@,
            NotificationType::SecurityAlert => "#e67e22"@,
            NotificationType::SystemNotification => "#9b59b6"@,
        }
    }

    fn style(&self) -> (r: (&'static str, &'static str))
        ensures
            r.0@ == self.headline(),
            r.1@ == self.color(),
    {
        match self {
            NotificationType::DeploymentStarted => ("\u{1f680} Deployment Started", "#3498db"),
            NotificationType::DeploymentSucceeded => ("\u{2705} Deployment Succeeded", "#27ae60"),
            NotificationType::DeploymentFailed => ("\u{274c} Deployment Failed", "#e74c3c"),
            NotificationType::SecurityAlert => ("\u{1f512} Security Alert", "#e67e22"),
            NotificationType::SystemNotification => ("\u{2139}\u{fe0f} System Notification", "#9b59b6"),
        }
    }
}

/// `m` is the HTML notice that a deployment of `project`/`branch` at `commit`
/// starts, to `to`.
pub open spec fn is_started_message(m: EmailMessage, to: Seq<char>, project: Seq<char>, branch: Seq<char>, commit: Seq<char>) -> bool {
    &&& m.to@ == to
    &&& m.subject@ == NotificationType::DeploymentStarted.headline() + ": "@ + (project + " / "@ + branch)
    &&& m.body@ == notification_body(NotificationType::DeploymentStarted.color(),
        NotificationType::DeploymentStarted.headline(), project + " / "@ + branch,
        "Commit: "@ + commit + "\nStarting deployment..."@)
    &&& m.html
}

/// `m` is the HTML notice that a deployment of `project`/`branch` is live at
/// `url` after `duration_seconds`, to `to`.
pub open spec fn is_succeeded_message(m: EmailMessage, to: Seq<char>, project: Seq<char>, branch: Seq<char>, url: Seq<char>, duration_seconds: u64) -> bool {
    &&& m.to@ == to
    &&& m.subject@ == NotificationType::DeploymentSucceeded.headline() + ": "@ + (project + " / "@ + branch)
    &&& m.body@ == notification_body(NotificationType::DeploymentSucceeded.color(),
        NotificationType::DeploymentSucceeded.headline(), project + " / "@ + branch,
        "URL: "@ + url + "\nDuration: "@ + decimal_chars(duration_seconds as nat)
            + "s\n\nDeployment completed successfully."@)
    &&& m.html
}

/// `m` is the HTML notice that a deployment of `project`/`branch` failed with
/// `error`, to `to`.
pub open spec fn is_failed_message(m: EmailMessage, to: Seq<char>, project: Seq<char>, branch: Seq<char>, error: Seq<char>) -> bool {
    &&& m.to@ == to
    &&& m.subject@ == NotificationType::DeploymentFailed.headline() + ": "@ + (project + " / "@ + branch)
    &&& m.body@ == notification_body(NotificationType::DeploymentFailed.color(),
        NotificationType::DeploymentFailed.headline(), project + " / "@ + branch, "Error:\n"@ + error)
    &&& m.html
}

/// Whether `address` parses as a mailbox (`Name <user@domain>` or
/// `user@domain`), as `lettre` reads one.
pub uninterp spec fn mailbox_parses(address: Seq<char>) -> bool;

/// Parses `address` with `<lettre::message::Mailbox as FromStr>::from_str` and
/// reports whether it succeeded. The contract names the answer
/// `mailbox_parses(address)`: the parser reads the text alone.
#[verifier::external_body]
pub(crate) fn parses_as_mailbox(address: &str) -> (r: bool)
    ensures
        r == mailbox_parses(address@),
{
    address.parse::<lettre::message::Mailbox>().is_ok()
}

/// Refuses an address that does not parse as a mailbox.
pub fn check_mailbox(address: &str) -> (r: Result<()>)
    ensures
        r is Ok <==> mailbox_parses(address@),
        r is Err ==> (r matches Err(AppError::Email(EmailError::InvalidAddress { address: a })) && a@ == address@),
{
    if parses_as_mailbox(address) {
        Ok(())
    } else {
        Err(AppError::Email(EmailError::InvalidAddress { address: address.to_owned() }))
    }
}

/// The outcome of checking a message before it is sent.
pub open spec fn message_outcome(m: EmailMessage) -> Result<()> {
    let to = crate::deployment::pipeline::bytes(m.to);
    let subject = crate::deployment::pipeline::bytes(m.subject);
    let body = crate::deployment::pipeline::bytes(m.body);
    if to.len() == 0 {
        invalid(ValidationError::Empty { field: "to" })
    } else if !to.contains(64u8) {
        invalid(ValidationError::InvalidEmail { field: "to" })
    } else if subject.len() == 0 {
        invalid(ValidationError::Empty { field: "subject" })
    } else if subject.len() > SUBJECT_LENGTH_MAX {
        invalid(ValidationError::TooLong { field: "subject", length: subject.len() as usize, max: SUBJECT_LENGTH_MAX })
    } else if body.len() > BODY_LENGTH_MAX {
        invalid(ValidationError::TooLong { field: "body", length: body.len() as usize, max: BODY_LENGTH_MAX })
    } else {
        Ok(())
    }
}

impl EmailMessage {
    /// Checks a message before it is sent: a recipient with an `@`, a subject of
    /// at most 998 bytes and a body of at most 10 MiB.
    pub fn validate(&self) -> (r: Result<()>)
        ensures
            r == message_outcome(*self),
    {
        let to = self.to.as_str().as_bytes();
        if to.len() == 0 {
            return Err(AppError::Validation(ValidationError::Empty { field: "to" }));
        }
        if !scan_byte(to, 64) {
            return Err(AppError::Validation(ValidationError::InvalidEmail { field: "to" }));
        }
        let subject_len = self.subject.as_str().as_bytes().len();
        if subject_len == 0 {
            return Err(AppError::Validation(ValidationError::Empty { field: "subject" }));
        }
        if subject_len > SUBJECT_LENGTH_MAX {
            return Err(AppError::Validation(ValidationError::TooLong {
                field: "subject",
                length: subject_len,
                max: SUBJECT_LENGTH_MAX,
            }));
        }
        let body_len = self.body.as_str().as_bytes().len();
        if body_len > BODY_LENGTH_MAX {
            return Err(AppError::Validation(ValidationError::TooLong {
                field: "body",
                length: body_len,
                max: BODY_LENGTH_MAX,
            }));
        }
        Ok(())
    }

    /// Checks a message before it is handed to the mail server: `validate`,
    /// then whether the recipient parses as a mailbox.
    pub fn check_for_sending(&self) -> (r: Result<()>)
        ensures
            message_outcome(*self) is Err ==> r == message_outcome(*self),
            message_outcome(*self) is Ok ==> (r is Ok <==> mailbox_parses(self.to@)),
            message_outcome(*self) is Ok && r is Err ==> (r matches Err(AppError::Email(EmailError::InvalidAddress { address }))
                && address@ == self.to@),
    {
        if let Err(e) = self.validate() {
            return Err(e);
        }
        check_mailbox(self.to.as_str())
    }

    /// The HTML notification of `kind` about `title` with `details`, to `to`.
    pub fn notification(to: &str, kind: NotificationType, title: &str, details: &str) -> (m: EmailMessage)
        ensures
            m.to@ == to@,
            m.subject@ == kind.headline() + ": "@ + title@,
            m.body@ == notification_body(kind.color(), kind.headline(), title@, details@),
            m.html,
    {
        let (prefix, color) = kind.style();
        let mut subject = prefix.to_owned();
        subject.append(": ");
        subject.append(title);
        let mut body = "<!DOCTYPE html>\n<html>\n<head>\n    <meta charset=\"utf-8\">\n</head>\n<body style=\"font-family: -apple-system, BlinkMacSystemFont, 'Segoe UI', Roboto, sans-serif; padding: 20px;\">\n    <div style=\"max-width: 600px; margin: 0 auto; border: 1px solid #e0e0e0; border-radius: 8px; overflow: hidden;\">\n        <div style=\"background-color: ".to_owned();
        body.append(color);
        body.append("; color: white; padding: 20px;\">\n            <h1 style=\"margin: 0; font-size: 24px;\">");
        body.append(prefix);
        body.append("</h1>\n        </div>\n        <div style=\"padding: 20px;\">\n            <h2 style=\"margin-top: 0;\">");
        body.append(title);
        body.append("</h2>\n            <div style=\"background-color: #f5f5f5; padding: 15px; border-radius: 4px; white-space: pre-wrap;\">");
        body.append(details);
        body.append("</div>\n        </div>\n        <div style=\"background-color: #f9f9f9; padding: 15px; text-align: center; font-size: 12px; color: #666;\">\n            Sent by RustDeploy\n        </div>\n    </div>\n</body>\n</html>");
        EmailMessage { to: to.to_owned(), subject, body, html: true }
    }

    /// The `project / branch` title of a deployment notification.
    fn deployment_title(project: &str, branch: &str) -> (t: String)
        ensures
            t@ == project@ + " / "@ + branch@,
    {
        let mut t = project.to_owned();
        t.append(" / ");
        t.append(branch);
        t
    }

    /// The notice that a deployment of `commit` has started.
    pub fn deployment_started(to: &str, project: &str, branch: &str, commit: &str) -> (m: EmailMessage)
        ensures
            is_started_message(m, to@, project@, branch@, commit@),
    {
        let title = Self::deployment_title(project, branch);
        let mut details = "Commit: ".to_owned();
        details.append(commit);
        details.append("\nStarting deployment...");
        Self::notification(to, NotificationType::DeploymentStarted, title.as_str(), details.as_str())
    }

    /// The notice that a deployment is live at `url` after `duration_seconds`.
    pub fn deployment_succeeded(to: &str, project: &str, branch: &str, url: &str, duration_seconds: u64) -> (m: EmailMessage)
        ensures
            is_succeeded_message(m, to@, project@, branch@, url@, duration_seconds),
    {
        let title = Self::deployment_title(project, branch);
        let mut details = "URL: ".to_owned();
        details.append(url);
        details.append("\nDuration: ");
        push_decimal(&mut details, duration_seconds);
        details.append("s\n\nDeployment completed successfully.");
        Self::notification(to, NotificationType::DeploymentSucceeded, title.as_str(), details.as_str())
    }

    /// The notice that a deployment failed with `error`.
    pub fn deployment_failed(to: &str, project: &str, branch: &str, error: &str) -> (m: EmailMessage)
        ensures
            is_failed_message(m, to@, project@, branch@, error@),
    {
        let title = Self::deployment_title(project, branch);
        let mut details = "Error:\n".to_owned();
        details.append(error);
        Self::notification(to, NotificationType::DeploymentFailed, title.as_str(), details.as_str())
    }
}

} // verus!

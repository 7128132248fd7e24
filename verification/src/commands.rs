//! Values and rules of the notification and directory permission commands.
use vstd::prelude::*;
use crate::events::option_text;
use crate::text::{append_chars, chars_of, string_of};

verus! {

/// The request to show a notification.
pub struct NotificationPayload {
    pub title: Option<String>,
    pub body: Option<String>,
}

/// The title and the body of a requested notification, with `OpenChamber`
/// and `Task completed` where the request leaves them out.
pub fn notification_texts(payload: &Option<NotificationPayload>) -> (r: (String, String))
    ensures
        r.0@ == match *payload {
            Some(p) => match p.title {
                Some(t) => t@,
                None => "OpenChamber"@,
            },
            None => "OpenChamber"@,
        },
        r.1@ == match *payload {
            Some(p) => match p.body {
                Some(b) => b@,
                None => "Task completed"@,
            },
            None => "Task completed"@,
        },
{
    match payload {
        Some(p) => {
            let title = match &p.title {
                Some(t) => t.clone(),
                None => "OpenChamber".to_owned(),
            };
            let body = match &p.body {
                Some(b) => b.clone(),
                None => "Task completed".to_owned(),
            };
            (title, body)
        },
        None => ("OpenChamber".to_owned(), "Task completed".to_owned()),
    }
}

/// The request for access to a directory.
pub struct DirectoryPermissionRequest {
    pub path: String,
}

/// The answer to a request for access to a directory.
pub struct DirectoryPermissionResult {
    pub success: bool,
    pub path: Option<String>,
    pub error: Option<String>,
}

/// The answer to a request to start using a directory.
pub struct StartAccessingResult {
    pub success: bool,
    pub error: Option<String>,
}

/// The answer for a directory that the user selected, given whether the
/// path found and whether it is a directory.
pub fn directory_selection_result(path: String, found: bool, is_dir: bool) -> (r:
    DirectoryPermissionResult)
    ensures
        r.success == (found && is_dir),
        option_text(r.path) == if found && is_dir {
            Some(path@)
        } else {
            None
        },
        option_text(r.error) == if !found {
            Some("Directory does not exist"@)
        } else if !is_dir {
            Some("Path is not a directory"@)
        } else {
            None
        },
{
    if !found {
        DirectoryPermissionResult {
            success: false,
            path: None,
            error: Some("Directory does not exist".to_owned()),
        }
    } else if !is_dir {
        DirectoryPermissionResult {
            success: false,
            path: None,
            error: Some("Path is not a directory".to_owned()),
        }
    } else {
        DirectoryPermissionResult { success: true, path: Some(path), error: None }
    }
}


/// The message of a failed attempt, made of what was attempted and why it
/// failed.
fn failure_message(what: &str, reason: &str) -> (r: String)
    ensures
        r@ == what@ + ": "@ + reason@,
{
    let mut out = chars_of(what);
    append_chars(&mut out, &chars_of(": "));
    append_chars(&mut out, &chars_of(reason));
    string_of(&out)
}

/// The error of a request for a directory, if there is one: the path must
/// be there, be a directory, and be readable. `read_failure` is why the
/// directory could not be read, and `what` names the attempt.
pub open spec fn access_error(
    found: bool,
    is_dir: bool,
    read_failure: Option<Seq<char>>,
    what: Seq<char>,
) -> Option<Seq<char>> {
    if !found {
        Some("Directory does not exist"@)
    } else if !is_dir {
        Some("Path is not a directory"@)
    } else {
        match read_failure {
            Some(reason) => Some(what + ": "@ + reason),
            None => None,
        }
    }
}

/// The error of a request for a directory.
fn access_error_of(found: bool, is_dir: bool, read_failure: Option<&str>, what: &str) -> (r:
    Option<String>)
    ensures
        option_text(r) == access_error(
            found,
            is_dir,
            match read_failure {
                Some(e) => Some(e@),
                None => None,
            },
            what@,
        ),
{
    if !found {
        Some("Directory does not exist".to_owned())
    } else if !is_dir {
        Some("Path is not a directory".to_owned())
    } else {
        match read_failure {
            Some(reason) => Some(failure_message(what, reason)),
            None => None,
        }
    }
}

/// Answers a request for access to a directory.
pub fn request_directory_access(
    request: DirectoryPermissionRequest,
    found: bool,
    is_dir: bool,
    read_failure: Option<&str>,
) -> (r: DirectoryPermissionResult)
    ensures
        option_text(r.error) == access_error(
            found,
            is_dir,
            match read_failure {
                Some(e) => Some(e@),
                None => None,
            },
            "Cannot access directory"@,
        ),
        r.success == r.error is None,
        option_text(r.path) == if r.error is None {
            Some(request.path@)
        } else {
            None
        },
{
    match access_error_of(found, is_dir, read_failure, "Cannot access directory") {
        Some(error) => DirectoryPermissionResult { success: false, path: None, error: Some(error) },
        None => DirectoryPermissionResult { success: true, path: Some(request.path), error: None },
    }
}

/// Answers a request to start using a directory.
pub fn start_accessing_directory(found: bool, is_dir: bool, read_failure: Option<&str>) -> (r:
    StartAccessingResult)
    ensures
        option_text(r.error) == access_error(
            found,
            is_dir,
            match read_failure {
                Some(e) => Some(e@),
                None => None,
            },
            "Failed to access directory"@,
        ),
        r.success == r.error is None,
{
    match access_error_of(found, is_dir, read_failure, "Failed to access directory") {
        Some(error) => StartAccessingResult { success: false, error: Some(error) },
        None => StartAccessingResult { success: true, error: None },
    }
}

/// Answers a request to stop using a directory: there is nothing to
/// release, so it always succeeds.
pub fn stop_accessing_directory() -> (r: StartAccessingResult)
    ensures
        r.success,
        r.error is None,
{
    StartAccessingResult { success: true, error: None }
}

} // verus!

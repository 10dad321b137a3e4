//! What to tell the user of an action: that it succeeded, or what went
//! wrong and where.
use vstd::prelude::*;
use vstd::string::*;
use crate::config::ValidationError;
use crate::plan::{Action, ActionView};

verus! {

/// Why an action failed, as the operating system or the HTTP client saw it.
#[derive(Clone, Copy, Debug, PartialEq, Eq, Structural)]
pub enum Cause {
    /// The target path already exists.
    AlreadyExists,
    /// Access to the target path was denied.
    PermissionDenied,
    /// A parent of the target path is missing.
    NotFound,
    /// The request failed, or its response had no success status.
    Network,
    /// Any other failure of the operating system.
    Other,
}

/// A failed action, with the path or the address that it was about.
#[derive(Clone, Debug, PartialEq, Eq)]
pub enum ProvisioningError {
    AlreadyExists { path: String },
    PermissionDenied { path: String },
    PathNotFound { path: String },
    Fetch { url: String },
    Other { path: String },
}

/// The mathematical value of a [`ProvisioningError`].
pub enum ErrorView {
    AlreadyExists { path: Seq<char> },
    PermissionDenied { path: Seq<char> },
    PathNotFound { path: Seq<char> },
    Fetch { url: Seq<char> },
    Other { path: Seq<char> },
}

impl View for ProvisioningError {
    type V = ErrorView;

    open spec fn view(&self) -> ErrorView {
        match self {
            ProvisioningError::AlreadyExists { path } => ErrorView::AlreadyExists { path: path@ },
            ProvisioningError::PermissionDenied { path } => ErrorView::PermissionDenied {
                path: path@,
            },
            ProvisioningError::PathNotFound { path } => ErrorView::PathNotFound { path: path@ },
            ProvisioningError::Fetch { url } => ErrorView::Fetch { url: url@ },
            ProvisioningError::Other { path } => ErrorView::Other { path: path@ },
        }
    }
}

/// The error of an action that failed for `cause`. An operating-system cause
/// names the action's target path. A network cause names the address of a
/// fetch; on an action that fetches nothing it is unclassified.
pub open spec fn failure_of(action: ActionView, cause: Cause) -> ErrorView {
    match cause {
        Cause::AlreadyExists => ErrorView::AlreadyExists { path: action.target() },
        Cause::PermissionDenied => ErrorView::PermissionDenied { path: action.target() },
        Cause::NotFound => ErrorView::PathNotFound { path: action.target() },
        Cause::Network => match action {
            ActionView::Fetch { url, .. } => ErrorView::Fetch { url },
            _ => ErrorView::Other { path: action.target() },
        },
        Cause::Other => ErrorView::Other { path: action.target() },
    }
}

impl Action {
    /// The path of the filesystem entry that the action creates.
    pub fn target(&self) -> (r: &String)
        ensures
            r@ == self@.target(),
    {
        match self {
            Action::CreateDir { path } => path,
            Action::CreateFile { path } => path,
            Action::WriteScript { path, .. } => path,
            Action::Fetch { path, .. } => path,
        }
    }
}

/// Names the error of `action`, which failed for `cause`.
pub fn failure(action: &Action, cause: Cause) -> (r: ProvisioningError)
    ensures
        r@ == failure_of(action@, cause),
{
    match cause {
        Cause::AlreadyExists => ProvisioningError::AlreadyExists { path: action.target().clone() },
        Cause::PermissionDenied => ProvisioningError::PermissionDenied {
            path: action.target().clone(),
        },
        Cause::NotFound => ProvisioningError::PathNotFound { path: action.target().clone() },
        Cause::Network => match action {
            Action::Fetch { url, .. } => ProvisioningError::Fetch { url: url.clone() },
            _ => ProvisioningError::Other { path: action.target().clone() },
        },
        Cause::Other => ProvisioningError::Other { path: action.target().clone() },
    }
}

/// The diagnostic line of an error: the failed operation, what it was
/// about, and the cause where one is known.
pub open spec fn message_of(e: ErrorView) -> Seq<char> {
    match e {
        ErrorView::AlreadyExists { path } => "Failed to create '"@ + path + "': already exists"@,
        ErrorView::PermissionDenied { path } => "Failed to create '"@ + path
            + "': permission denied"@,
        ErrorView::PathNotFound { path } => "Failed to create '"@ + path + "': path not found"@,
        ErrorView::Fetch { url } => "Failed to fetch '"@ + url + "'"@,
        ErrorView::Other { path } => "Failed to create '"@ + path + "'"@,
    }
}

/// The name of the field that a validation error is about.
pub open spec fn field_of(e: ValidationError) -> Seq<char> {
    match e {
        ValidationError::Name => "name"@,
        ValidationError::Author => "author"@,
        ValidationError::Category => "type"@,
        ValidationError::Directory => "dir"@,
    }
}

impl ProvisioningError {
    /// The diagnostic line of the error.
    pub fn message(&self) -> (r: String)
        ensures
            r@ == message_of(self@),
    {
        match self {
            ProvisioningError::AlreadyExists { path } => {
                let mut r: String = String::from_str("Failed to create '");
                r.append(path.as_str());
                r.append("': already exists");
                r
            },
            ProvisioningError::PermissionDenied { path } => {
                let mut r: String = String::from_str("Failed to create '");
                r.append(path.as_str());
                r.append("': permission denied");
                r
            },
            ProvisioningError::PathNotFound { path } => {
                let mut r: String = String::from_str("Failed to create '");
                r.append(path.as_str());
                r.append("': path not found");
                r
            },
            ProvisioningError::Fetch { url } => {
                let mut r: String = String::from_str("Failed to fetch '");
                r.append(url.as_str());
                r.append("'");
                r
            },
            ProvisioningError::Other { path } => {
                let mut r: String = String::from_str("Failed to create '");
                r.append(path.as_str());
                r.append("'");
                r
            },
        }
    }
}

/// The name of the field that `e` is about.
pub fn field(e: ValidationError) -> (r: &'static str)
    ensures
        r@ == field_of(e),
{
    match e {
        ValidationError::Name => "name",
        ValidationError::Author => "author",
        ValidationError::Category => "type",
        ValidationError::Directory => "dir",
    }
}

/// The progress line of an action that succeeded.
pub open spec fn progress_of(action: ActionView) -> Seq<char> {
    "Created '"@ + action.target() + "'"@
}

impl Action {
    /// The progress line to show, in verbose mode, once the action has
    /// succeeded.
    pub fn progress(&self) -> (r: String)
        ensures
            r@ == progress_of(self@),
    {
        let mut r: String = String::from_str("Created '");
        r.append(self.target().as_str());
        r.append("'");
        r
    }
}

} // verus!

//! What can go wrong during a run, and how it is reported.
use crate::fetch::{FetchError, FetchErrorView};
use crate::locate::NotFoundError;
use crate::runner::{RunError, RunErrorView};
use crate::text::{decimal, decimal_of};
use vstd::prelude::*;
use vstd::string::*;

verus! {

/// Why a run was abandoned.
#[derive(Clone, Debug, PartialEq, Eq)]
pub enum UpdateError {
    /// An environment variable that a step depends on is not set.
    EnvironmentVariableMissing(String),
    /// No directory of the search path holds the named executable.
    ExecutableNotFound(String),
    /// A command could not be started; the text is the underlying message.
    ProcessSpawnFailed(String),
    /// The release host answered with a status outside the success range.
    HttpStatusError(u16),
    /// The destination of a download is already there.
    FileAlreadyExists(String),
    /// Reading or writing failed; the text is the underlying message.
    IoError(String),
}

/// An `UpdateError` with its texts as sequences of characters.
pub enum UpdateErrorView {
    EnvironmentVariableMissing(Seq<char>),
    ExecutableNotFound(Seq<char>),
    ProcessSpawnFailed(Seq<char>),
    HttpStatusError(u16),
    FileAlreadyExists(Seq<char>),
    IoError(Seq<char>),
}

impl View for UpdateError {
    type V = UpdateErrorView;

    open spec fn view(&self) -> UpdateErrorView {
        match *self {
            UpdateError::EnvironmentVariableMissing(name) => {
                UpdateErrorView::EnvironmentVariableMissing(name@)
            },
            UpdateError::ExecutableNotFound(name) => UpdateErrorView::ExecutableNotFound(name@),
            UpdateError::ProcessSpawnFailed(command) => {
                UpdateErrorView::ProcessSpawnFailed(command@)
            },
            UpdateError::HttpStatusError(code) => UpdateErrorView::HttpStatusError(code),
            UpdateError::FileAlreadyExists(path) => UpdateErrorView::FileAlreadyExists(path@),
            UpdateError::IoError(message) => UpdateErrorView::IoError(message@),
        }
    }
}

impl UpdateError {
    /// A copy of this error.
    pub fn duplicate(&self) -> (copy: UpdateError)
        ensures
            copy@ == self@,
    {
        match self {
            UpdateError::EnvironmentVariableMissing(name) => {
                UpdateError::EnvironmentVariableMissing(name.clone())
            },
            UpdateError::ExecutableNotFound(name) => UpdateError::ExecutableNotFound(name.clone()),
            UpdateError::ProcessSpawnFailed(command) => {
                UpdateError::ProcessSpawnFailed(command.clone())
            },
            UpdateError::HttpStatusError(code) => UpdateError::HttpStatusError(*code),
            UpdateError::FileAlreadyExists(path) => UpdateError::FileAlreadyExists(path.clone()),
            UpdateError::IoError(message) => UpdateError::IoError(message.clone()),
        }
    }
}

/// What is printed for an error: its kind and, where there is one, the
/// name or message that it carries.
pub open spec fn description_of(error: UpdateErrorView) -> Seq<char> {
    match error {
        UpdateErrorView::EnvironmentVariableMissing(name) => "environment variable not set: "@
            + name,
        UpdateErrorView::ExecutableNotFound(name) => "Error: "@ + name + " not found"@,
        UpdateErrorView::ProcessSpawnFailed(message) => "failed to execute: "@ + message,
        UpdateErrorView::HttpStatusError(code) => "unexpected HTTP status: "@ + decimal_of(
            code as nat,
        ),
        UpdateErrorView::FileAlreadyExists(path) => "file already exists: "@ + path,
        UpdateErrorView::IoError(message) => "Error "@ + message,
    }
}

/// The failure of a run that a failed download of `dest` amounts to.
pub open spec fn of_fetch(error: FetchErrorView, dest: Seq<char>) -> UpdateErrorView {
    match error {
        FetchErrorView::HttpStatus(code) => UpdateErrorView::HttpStatusError(code),
        FetchErrorView::AlreadyExists => UpdateErrorView::FileAlreadyExists(dest),
        FetchErrorView::Io(message) => UpdateErrorView::IoError(message),
    }
}

/// The failure of a run that a failed command amounts to.
pub open spec fn of_run(error: RunErrorView) -> UpdateErrorView {
    match error {
        RunErrorView::SpawnFailed(message) => UpdateErrorView::ProcessSpawnFailed(message),
        RunErrorView::WaitFailed(message) => UpdateErrorView::IoError(message),
    }
}

impl UpdateError {
    /// The text that is printed for this error.
    pub fn describe(&self) -> (text: String)
        ensures
            text@ == description_of(self@),
    {
        match self {
            UpdateError::EnvironmentVariableMissing(name) => {
                let mut text = String::from_str("environment variable not set: ");
                text.append(name.as_str());
                text
            },
            UpdateError::ExecutableNotFound(name) => {
                let mut text = String::from_str("Error: ");
                text.append(name.as_str());
                text.append(" not found");
                text
            },
            UpdateError::ProcessSpawnFailed(message) => {
                let mut text = String::from_str("failed to execute: ");
                text.append(message.as_str());
                text
            },
            UpdateError::HttpStatusError(code) => {
                let mut text = String::from_str("unexpected HTTP status: ");
                let digits = decimal(*code as u64);
                text.append(digits.as_str());
                text
            },
            UpdateError::FileAlreadyExists(path) => {
                let mut text = String::from_str("file already exists: ");
                text.append(path.as_str());
                text
            },
            UpdateError::IoError(message) => {
                let mut text = String::from_str("Error ");
                text.append(message.as_str());
                text
            },
        }
    }

    /// The failure of a run whose download of `dest` failed with `error`.
    pub fn from_fetch(error: FetchError, dest: &str) -> (failure: UpdateError)
        ensures
            failure@ == of_fetch(error@, dest@),
    {
        match error {
            FetchError::HttpStatus(code) => UpdateError::HttpStatusError(code),
            FetchError::AlreadyExists => UpdateError::FileAlreadyExists(String::from_str(dest)),
            FetchError::Io(message) => UpdateError::IoError(message),
        }
    }

    /// The failure of a run one of whose commands failed with `error`.
    pub fn from_run(error: RunError) -> (failure: UpdateError)
        ensures
            failure@ == of_run(error@),
    {
        match error {
            RunError::SpawnFailed(message) => UpdateError::ProcessSpawnFailed(message),
            RunError::WaitFailed(message) => UpdateError::IoError(message),
        }
    }

    /// The failure of a run that did not find an executable it needs.
    pub fn from_not_found(error: NotFoundError) -> (failure: UpdateError)
        ensures
            failure@ == UpdateErrorView::ExecutableNotFound(error.name@),
    {
        UpdateError::ExecutableNotFound(error.name)
    }
}

} // verus!

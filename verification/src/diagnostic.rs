//! What the daemon reports: each recovered failure as a level and a line of text.

use vstd::prelude::*;
use vstd::string::*;
use crate::query::QueryError;
use crate::text::{append_decimal, decimal};
use crate::theme::Theme;

verus! {

/// How serious a report is.
#[derive(Clone, Copy, Debug, PartialEq, Eq, Structural)]
pub enum Level {
    Warn,
    Error,
}

/// A recovered failure that is worth a line in the log.
#[derive(Debug, PartialEq, Eq)]
pub enum Diagnostic {
    /// The preference could not be read.
    QueryFailed { error: QueryError },
    /// The active theme link could not be removed.
    UnlinkFailed { reason: String },
    /// The link to the file of `theme` could not be created.
    SymlinkFailed { theme: Theme, reason: String },
    /// The reload command ran and returned the nonzero exit code `code`.
    ReloadExitCode { code: i32 },
    /// The reload command was ended by a signal.
    ReloadSignaled,
    /// The reload command could not be started.
    ReloadLaunchFailed { reason: String },
}

impl QueryError {
    /// The text of this error.
    pub open spec fn spec_message(&self) -> Seq<char> {
        match *self {
            QueryError::LaunchFailed => "failed to execute gsettings"@,
            QueryError::NotUtf8 => "expected gsettings output to be valid UTF-8"@,
            QueryError::UnknownValue { value } => "unknown gsettings color-scheme value: "@
                + value@,
        }
    }

    /// The text of this error.
    pub fn message(&self) -> (text: String)
        ensures
            text@ == self.spec_message(),
    {
        match self {
            QueryError::LaunchFailed => String::from_str("failed to execute gsettings"),
            QueryError::NotUtf8 => String::from_str("expected gsettings output to be valid UTF-8"),
            QueryError::UnknownValue { value } => String::from_str(
                "unknown gsettings color-scheme value: ",
            ).concat(value.as_str()),
        }
    }
}

impl Diagnostic {
    /// The level at which this failure is reported.
    pub open spec fn spec_level(&self) -> Level {
        match *self {
            Diagnostic::QueryFailed { .. } => Level::Error,
            Diagnostic::UnlinkFailed { .. } => Level::Error,
            Diagnostic::SymlinkFailed { .. } => Level::Warn,
            Diagnostic::ReloadExitCode { .. } => Level::Warn,
            Diagnostic::ReloadSignaled => Level::Warn,
            Diagnostic::ReloadLaunchFailed { .. } => Level::Error,
        }
    }

    /// The line of text that reports this failure.
    pub open spec fn spec_message(&self) -> Seq<char> {
        match *self {
            Diagnostic::QueryFailed { error } => "failed to get current theme: "@
                + error.spec_message(),
            Diagnostic::UnlinkFailed { reason } => "failed to unlink previous theme: "@ + reason@,
            Diagnostic::SymlinkFailed { theme: Theme::Light, reason } =>
                "failed to symlink to light theme: "@ + reason@,
            Diagnostic::SymlinkFailed { theme: Theme::Dark, reason } =>
                "failed to symlink to new theme: "@ + reason@,
            Diagnostic::ReloadExitCode { code } => "failed with exit code: "@ + decimal(
                code as int,
            ),
            Diagnostic::ReloadSignaled => "process terminated due to signal"@,
            Diagnostic::ReloadLaunchFailed { reason } => "failed to execute tmux: "@ + reason@,
        }
    }

    /// The level at which this failure is reported.
    #[verifier::when_used_as_spec(spec_level)]
    pub fn level(&self) -> (level: Level)
        ensures
            level == self.spec_level(),
    {
        match self {
            Diagnostic::QueryFailed { .. } => Level::Error,
            Diagnostic::UnlinkFailed { .. } => Level::Error,
            Diagnostic::SymlinkFailed { .. } => Level::Warn,
            Diagnostic::ReloadExitCode { .. } => Level::Warn,
            Diagnostic::ReloadSignaled => Level::Warn,
            Diagnostic::ReloadLaunchFailed { .. } => Level::Error,
        }
    }

    /// The line of text that reports this failure.
    pub fn message(&self) -> (text: String)
        ensures
            text@ == self.spec_message(),
    {
        match self {
            Diagnostic::QueryFailed { error } => {
                let cause = error.message();
                String::from_str("failed to get current theme: ").concat(cause.as_str())
            },
            Diagnostic::UnlinkFailed { reason } => String::from_str(
                "failed to unlink previous theme: ",
            ).concat(reason.as_str()),
            Diagnostic::SymlinkFailed { theme: Theme::Light, reason } => String::from_str(
                "failed to symlink to light theme: ",
            ).concat(reason.as_str()),
            Diagnostic::SymlinkFailed { theme: Theme::Dark, reason } => String::from_str(
                "failed to symlink to new theme: ",
            ).concat(reason.as_str()),
            Diagnostic::ReloadExitCode { code } => {
                let mut text = String::from_str("failed with exit code: ");
                append_decimal(&mut text, *code);
                text
            },
            Diagnostic::ReloadSignaled => String::from_str("process terminated due to signal"),
            Diagnostic::ReloadLaunchFailed { reason } => String::from_str(
                "failed to execute tmux: ",
            ).concat(reason.as_str()),
        }
    }
}

} // verus!

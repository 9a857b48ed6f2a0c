//! Reading the desktop's appearance preference out of what the settings query printed.

use vstd::prelude::*;
use vstd::string::*;
use vstd::utf8::*;
use crate::text::{same_text, strip_quotes, trim, trimmed, unquoted};
use crate::theme::Theme;

verus! {

/// The program that knows the desktop's settings.
pub const QUERY_PROGRAM: &'static str = "gsettings";

/// The arguments that make it print the appearance preference.
pub const QUERY_ARGUMENTS: [&'static str; 3] = ["get", "org.gnome.desktop.interface", "color-scheme"];

/// The setting's value that selects the light theme.
pub const LIGHT_VALUE: &'static str = "default";

/// The setting's value that selects the dark theme.
pub const DARK_VALUE: &'static str = "prefer-dark";

/// What running the settings query produced.
#[derive(Debug, PartialEq, Eq)]
pub enum QueryOutcome {
    /// The query ran; `stdout` is everything it printed.
    Output { stdout: Vec<u8> },
    /// The query could not be started.
    LaunchFailed,
}

/// Why a tick could not learn the preference.
#[derive(Debug, PartialEq, Eq)]
pub enum QueryError {
    /// The query could not be started.
    LaunchFailed,
    /// The query printed bytes that are not UTF-8.
    NotUtf8,
    /// The query printed a value that names neither theme; `value` is that
    /// value after normalization.
    UnknownValue { value: String },
}

/// The lowercase form that `str::to_lowercase` gives the text `s`.
pub uninterp spec fn lowercase_of(s: Seq<char>) -> Seq<char>;

/// The value that is looked up: the printed text without surrounding white
/// space, without one layer of quote marks, in lowercase.
pub open spec fn normalized(text: Seq<char>) -> Seq<char> {
    lowercase_of(unquoted(trimmed(text)))
}

/// The theme that a normalized value names, if it names one.
pub open spec fn recognized(value: Seq<char>) -> Option<Theme> {
    if value == LIGHT_VALUE@ {
        Some(Theme::Light)
    } else if value == DARK_VALUE@ {
        Some(Theme::Dark)
    } else {
        None
    }
}

/// Whether `reading` is what the normalized value `value` stands for: the
/// theme it names, or else the error that carries the value.
pub open spec fn reads_value(value: Seq<char>, reading: Result<Theme, QueryError>) -> bool {
    match recognized(value) {
        Some(theme) => reading == Ok::<Theme, QueryError>(theme),
        None => reading matches Err(QueryError::UnknownValue { value: v }) && v@ == value,
    }
}

/// Whether `reading` is what the query's outcome stands for.
pub open spec fn reads_outcome(outcome: QueryOutcome, reading: Result<Theme, QueryError>) -> bool {
    match outcome {
        QueryOutcome::LaunchFailed => reading == Err::<Theme, QueryError>(
            QueryError::LaunchFailed,
        ),
        QueryOutcome::Output { stdout } => if valid_utf8(stdout@) {
            reads_value(normalized(decode_utf8(stdout@)), reading)
        } else {
            reading == Err::<Theme, QueryError>(QueryError::NotUtf8)
        },
    }
}

/// Calls `String::from_utf8`: the text is returned exactly when the bytes are
/// valid UTF-8, and it is then the text that they encode.
#[verifier::external_body]
fn utf8_text(bytes: Vec<u8>) -> (text: Option<String>)
    ensures
        text is Some <==> valid_utf8(bytes@),
        text matches Some(t) ==> t@ == decode_utf8(bytes@),
{
    String::from_utf8(bytes).ok()
}

/// Calls `str::to_lowercase`: the result is the Unicode lowercase form of
/// `s`, which depends on `s` alone.
#[verifier::external_body]
fn to_lowercase(s: &str) -> (lower: String)
    ensures
        lower@ == lowercase_of(s@),
{
    s.to_lowercase()
}

/// Normalizes the printed text for the lookup.
pub fn normalize(text: &str) -> (value: String)
    ensures
        value@ == normalized(text@),
{
    to_lowercase(strip_quotes(trim(text)))
}

/// Looks a normalized value up: `"default"` names the light theme,
/// `"prefer-dark"` the dark one, and anything else is an error that carries
/// the value.
pub fn theme_from_value(value: String) -> (reading: Result<Theme, QueryError>)
    ensures
        reads_value(value@, reading),
{
    if same_text(value.as_str(), LIGHT_VALUE) {
        Ok(Theme::Light)
    } else if same_text(value.as_str(), DARK_VALUE) {
        Ok(Theme::Dark)
    } else {
        Err(QueryError::UnknownValue { value })
    }
}

/// Interprets the outcome of the settings query.
///
/// A query that could not be started, output that is not UTF-8 and a value
/// that names no theme are each an error; otherwise the named theme is
/// returned.
pub fn get_current_theme(outcome: QueryOutcome) -> (reading: Result<Theme, QueryError>)
    ensures
        reads_outcome(outcome, reading),
{
    match outcome {
        QueryOutcome::LaunchFailed => Err(QueryError::LaunchFailed),
        QueryOutcome::Output { stdout } => match utf8_text(stdout) {
            None => Err(QueryError::NotUtf8),
            Some(text) => theme_from_value(normalize(text.as_str())),
        },
    }
}

} // verus!

//! Where a run's data comes from, and how loading it can fail.

use vstd::prelude::*;
use crate::render::Template;

verus! {

/// Why a source could not be loaded. Each of the three ends the run before
/// anything is sent.
#[derive(Debug, Clone, Copy, PartialEq, Eq, Structural)]
pub enum LoadError {
    /// Nothing exists at the configured place.
    SourceNotFound,
    /// Something exists there, but its bytes could not be read.
    SourceUnreadable,
    /// The bytes were read, but they are not a collection of recipient records.
    SourceMalformed,
}

/// What a run is told at construction: where the recipients and the template
/// are, who sends, and under which subject.
#[derive(Debug, Clone, PartialEq, Eq)]
pub struct Settings {
    pub recipient_source: String,
    pub template_source: String,
    pub sender_address: String,
    pub subject: String,
}

/// What `Settings` hold, as text.
pub struct SettingsView {
    pub recipient_source: Seq<char>,
    pub template_source: Seq<char>,
    pub sender_address: Seq<char>,
    pub subject: Seq<char>,
}

impl View for Settings {
    type V = SettingsView;

    open spec fn view(&self) -> SettingsView {
        SettingsView {
            recipient_source: self.recipient_source@,
            template_source: self.template_source@,
            sender_address: self.sender_address@,
            subject: self.subject@,
        }
    }
}

/// What reading a source gave, before its content is looked at.
#[derive(Debug, Clone, PartialEq, Eq)]
pub enum SourceRead {
    /// Nothing exists at the place.
    Missing,
    /// The place exists but reading it failed.
    Unreadable,
    /// The whole content.
    Text(String),
}

/// The name of a load error, as the fatal report gives it.
pub open spec fn load_error_name(error: LoadError) -> Seq<char> {
    match error {
        LoadError::SourceNotFound => "SourceNotFound"@,
        LoadError::SourceUnreadable => "SourceUnreadable"@,
        LoadError::SourceMalformed => "SourceMalformed"@,
    }
}

/// The fatal report for a source that could not be loaded.
pub open spec fn abort_report(source: Seq<char>, error: LoadError) -> Seq<char> {
    "Error reading "@ + source + ": "@ + load_error_name(error)
}

impl LoadError {
    /// The error's name.
    pub fn name(&self) -> (name: &'static str)
        ensures
            name@ == load_error_name(*self),
    {
        match self {
            LoadError::SourceNotFound => "SourceNotFound",
            LoadError::SourceUnreadable => "SourceUnreadable",
            LoadError::SourceMalformed => "SourceMalformed",
        }
    }
}

/// A load that failed: which error, and the configured name of the source
/// that gave it.
#[derive(Debug, Clone, PartialEq, Eq)]
pub struct LoadFailure {
    pub error: LoadError,
    pub source: String,
}

/// What a `LoadFailure` holds, as text.
pub struct LoadFailureView {
    pub error: LoadError,
    pub source: Seq<char>,
}

impl View for LoadFailure {
    type V = LoadFailureView;

    open spec fn view(&self) -> LoadFailureView {
        LoadFailureView { error: self.error, source: self.source@ }
    }
}

impl LoadFailure {
    /// The fatal report for this failure: the source by name, and the error.
    pub fn report_line(&self) -> (line: String)
        ensures
            line@ == abort_report(self@.source, self@.error),
    {
        abort_line(self.source.as_str(), self.error)
    }
}

/// The line that reports why the run ends before any send.
pub fn abort_line(source: &str, error: LoadError) -> (line: String)
    ensures
        line@ == abort_report(source@, error),
{
    let mut line = "Error reading ".to_owned();
    line.append(source);
    line.append(": ");
    line.append(error.name());
    line
}

/// Loads the template from what reading its source gave. The text is taken
/// as it is: there is nothing to parse.
pub fn load_template(read: SourceRead) -> (loaded: Result<Template, LoadError>)
    ensures
        match read {
            SourceRead::Missing => loaded == Err::<Template, LoadError>(LoadError::SourceNotFound),
            SourceRead::Unreadable => loaded == Err::<Template, LoadError>(
                LoadError::SourceUnreadable,
            ),
            SourceRead::Text(text) => loaded == Ok::<Template, LoadError>(Template { body: text }),
        },
{
    match read {
        SourceRead::Missing => Err(LoadError::SourceNotFound),
        SourceRead::Unreadable => Err(LoadError::SourceUnreadable),
        SourceRead::Text(text) => Ok(Template { body: text }),
    }
}

} // verus!

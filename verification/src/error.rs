//! The errors of a run, as plain values.

use vstd::prelude::*;
use vstd::string::*;

verus! {

/// What the engine reads of a failed file-system operation: whether the
/// failure says that the entry was already there.
#[derive(Clone, Copy, Debug, PartialEq, Eq, Structural)]
pub enum IoErrorKind {
    AlreadyExists,
    Other,
}

/// A failed file-system operation: its kind and the text that describes it.
#[derive(Debug, PartialEq, Eq)]
pub struct IoFailure {
    pub kind: IoErrorKind,
    pub message: String,
}

/// The mathematical value of an [`IoFailure`].
pub struct IoFailureView {
    pub kind: IoErrorKind,
    pub message: Seq<char>,
}

impl View for IoFailure {
    type V = IoFailureView;

    open spec fn view(&self) -> IoFailureView {
        IoFailureView { kind: self.kind, message: self.message@ }
    }
}

impl Clone for IoFailure {
    fn clone(&self) -> (res: Self)
        ensures
            res == *self,
    {
        IoFailure { kind: self.kind, message: self.message.clone() }
    }
}

/// Everything that can end a run or a task.
#[derive(Debug, PartialEq, Eq)]
pub enum EnvFileError {
    /// A file-system operation failed.
    IoError(IoFailure),
    /// The configuration text does not fit the schema.
    TomlError(String),
    /// The configuration could not be written out as text.
    SerError(String),
    /// The home directory is not known.
    EnvError,
}

/// The mathematical value of an [`EnvFileError`].
pub enum ErrorView {
    Io(IoFailureView),
    Toml(Seq<char>),
    Ser(Seq<char>),
    Env,
}

impl ErrorView {
    /// The text shown for this error.
    pub open spec fn message(self) -> Seq<char> {
        match self {
            ErrorView::Io(f) => "Io error: `"@ + f.message + "`"@,
            ErrorView::Toml(m) => "Yaml error: `"@ + m + "`"@,
            ErrorView::Ser(m) => "Yaml Ser error: `"@ + m + "`"@,
            ErrorView::Env => "$HOME not set"@,
        }
    }
}

impl View for EnvFileError {
    type V = ErrorView;

    open spec fn view(&self) -> ErrorView {
        match self {
            EnvFileError::IoError(f) => ErrorView::Io(f@),
            EnvFileError::TomlError(m) => ErrorView::Toml(m@),
            EnvFileError::SerError(m) => ErrorView::Ser(m@),
            EnvFileError::EnvError => ErrorView::Env,
        }
    }
}

impl Clone for EnvFileError {
    fn clone(&self) -> (res: Self)
        ensures
            res == *self,
    {
        match self {
            EnvFileError::IoError(f) => EnvFileError::IoError(f.clone()),
            EnvFileError::TomlError(m) => EnvFileError::TomlError(m.clone()),
            EnvFileError::SerError(m) => EnvFileError::SerError(m.clone()),
            EnvFileError::EnvError => EnvFileError::EnvError,
        }
    }
}

/// `head`, then `body`, then a closing backquote.
fn quoted(head: &str, body: &str) -> (res: String)
    ensures
        res@ == head@ + body@ + "`"@,
{
    let mut text = String::from_str(head);
    text.append(body);
    text.append("`");
    text
}

impl EnvFileError {
    /// The text shown for this error.
    pub fn message(&self) -> (res: String)
        ensures
            res@ == self@.message(),
    {
        match self {
            EnvFileError::IoError(f) => quoted("Io error: `", f.message.as_str()),
            EnvFileError::TomlError(m) => quoted("Yaml error: `", m.as_str()),
            EnvFileError::SerError(m) => quoted("Yaml Ser error: `", m.as_str()),
            EnvFileError::EnvError => String::from_str("$HOME not set"),
        }
    }
}

} // verus!

//! The failures that the launcher reports.

use vstd::prelude::*;

verus! {

/// A failure of the launcher, by the stage that met it, with its detail.
#[derive(Debug)]
pub enum Error {
    /// A failure that belongs to no stage.
    Generic(String),
    /// A file could not be downloaded.
    Download(String),
    /// A game version could not be launched.
    Launch(String),
    /// The manifest of runtimes could not be fetched or read.
    Fetch(String),
    /// Stored data is malformed.
    Json(String),
    /// Stored data names a variant that this launcher does not know.
    UnknownApi(Option<String>),
    /// Reading or writing failed.
    Io(String),
    /// An archive could not be read.
    Zip(String),
    /// The shared list of profiles was left in a broken state.
    Poisoned(String),
    /// The shared list of profiles is held by someone else.
    TryLock(String),
    /// A path lies outside what the host allows.
    PathNotAllowed(String),
    /// A request failed.
    Reqwest(String),
    /// A program lies outside what the host allows.
    ProgramNotAllowed(String),
}

/// An [`Error`] with its detail as a sequence of characters.
pub enum ErrorView {
    Generic(Seq<char>),
    Download(Seq<char>),
    Launch(Seq<char>),
    Fetch(Seq<char>),
    Json(Seq<char>),
    UnknownApi(Option<Seq<char>>),
    Io(Seq<char>),
    Zip(Seq<char>),
    Poisoned(Seq<char>),
    TryLock(Seq<char>),
    PathNotAllowed(Seq<char>),
    Reqwest(Seq<char>),
    ProgramNotAllowed(Seq<char>),
}

impl View for Error {
    type V = ErrorView;

    open spec fn view(&self) -> ErrorView {
        match self {
            Error::Generic(s) => ErrorView::Generic(s@),
            Error::Download(s) => ErrorView::Download(s@),
            Error::Launch(s) => ErrorView::Launch(s@),
            Error::Fetch(s) => ErrorView::Fetch(s@),
            Error::Json(s) => ErrorView::Json(s@),
            Error::UnknownApi(Some(s)) => ErrorView::UnknownApi(Some(s@)),
            Error::UnknownApi(None) => ErrorView::UnknownApi(None),
            Error::Io(s) => ErrorView::Io(s@),
            Error::Zip(s) => ErrorView::Zip(s@),
            Error::Poisoned(s) => ErrorView::Poisoned(s@),
            Error::TryLock(s) => ErrorView::TryLock(s@),
            Error::PathNotAllowed(s) => ErrorView::PathNotAllowed(s@),
            Error::Reqwest(s) => ErrorView::Reqwest(s@),
            Error::ProgramNotAllowed(s) => ErrorView::ProgramNotAllowed(s@),
        }
    }
}

/// The line that describes a failure to the user: what kind it is, then its detail.
pub open spec fn description(e: ErrorView) -> Seq<char> {
    match e {
        ErrorView::Generic(s) => "Runtime error: "@ + s,
        ErrorView::Download(s) => "Download error: "@ + s,
        ErrorView::Launch(s) => "Launch error: "@ + s,
        ErrorView::Fetch(s) => "Fetch error: "@ + s,
        ErrorView::Json(s) => "JSON error: "@ + s,
        ErrorView::UnknownApi(Some(s)) => "unknown api: "@ + s,
        ErrorView::UnknownApi(None) => "unknown api"@,
        ErrorView::Io(s) => s,
        ErrorView::Zip(s) => s,
        ErrorView::Poisoned(s) => "poisoned state: "@ + s,
        ErrorView::TryLock(s) => "failed to lock: "@ + s,
        ErrorView::PathNotAllowed(s) => "path not allowed on the configured scope: "@ + s,
        ErrorView::Reqwest(s) => "reqwest: "@ + s,
        ErrorView::ProgramNotAllowed(s) => "program not allowed on the configured shell scope: "@
            + s,
    }
}

/// The failure that a message about malformed data stands for: one that
/// speaks of an unknown variant tells of data from another version of the
/// launcher, any other of data that is broken.
pub open spec fn json_failure(message: Seq<char>) -> ErrorView {
    if crate::text::contains_text(message, "unknown variant"@) {
        ErrorView::UnknownApi(Some(message))
    } else {
        ErrorView::Json(message)
    }
}

/// `prefix` followed by `detail`.
fn prefixed(prefix: &str, detail: &String) -> (line: String)
    ensures
        line@ == prefix@ + detail@,
{
    let mut line = String::from_str(prefix);
    line.append(detail.as_str());
    line
}

impl Error {
    /// A failure that belongs to no stage, with `text` as its detail.
    pub fn msg(text: &str) -> (e: Error)
        ensures
            e@ == ErrorView::Generic(text@),
    {
        Error::Generic(String::from_str(text))
    }

    /// The failure that a message about malformed data stands for.
    pub fn from_json_message(message: String) -> (e: Error)
        ensures
            e@ == json_failure(message@),
    {
        if crate::text::text_contains(message.as_str(), "unknown variant") {
            Error::UnknownApi(Some(message))
        } else {
            Error::Json(message)
        }
    }

    /// The failure after a lock on the list of profiles was found poisoned.
    pub fn from_poisoned(message: String) -> (e: Error)
        ensures
            e@ == ErrorView::Poisoned(message@),
    {
        Error::Poisoned(message)
    }

    /// The failure after a lock on the list of profiles could not be taken.
    pub fn from_try_lock(message: String) -> (e: Error)
        ensures
            e@ == ErrorView::TryLock(message@),
    {
        Error::TryLock(message)
    }

    /// The line that describes the failure to the user.
    pub fn describe(&self) -> (line: String)
        ensures
            line@ == description(self@),
    {
        match self {
            Error::Generic(s) => prefixed("Runtime error: ", s),
            Error::Download(s) => prefixed("Download error: ", s),
            Error::Launch(s) => prefixed("Launch error: ", s),
            Error::Fetch(s) => prefixed("Fetch error: ", s),
            Error::Json(s) => prefixed("JSON error: ", s),
            Error::UnknownApi(Some(s)) => prefixed("unknown api: ", s),
            Error::UnknownApi(None) => String::from_str("unknown api"),
            Error::Io(s) => s.clone(),
            Error::Zip(s) => s.clone(),
            Error::Poisoned(s) => prefixed("poisoned state: ", s),
            Error::TryLock(s) => prefixed("failed to lock: ", s),
            Error::PathNotAllowed(s) => prefixed("path not allowed on the configured scope: ", s),
            Error::Reqwest(s) => prefixed("reqwest: ", s),
            Error::ProgramNotAllowed(s) => prefixed(
                "program not allowed on the configured shell scope: ",
                s,
            ),
        }
    }
}

} // verus!

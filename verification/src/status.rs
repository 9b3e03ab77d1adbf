//! Ticket workflow status and its keyword parser.

use vstd::prelude::*;
use crate::text::{str_eq, trim_str, trimmed};

verus! {

/// The workflow state of a ticket; a new ticket starts as `ToDo`.
#[derive(Debug, Default, Clone, Copy, PartialEq, Eq, PartialOrd, Ord, Structural)]
pub enum Status {
    #[default]
    ToDo,
    InProgress,
    Done,
}

#[derive(Debug, Clone, PartialEq, Eq)]
pub enum StatusError {
    ParseError(String),
}

/// The Unicode lowercase of a character sequence, as `str::to_lowercase`
/// produces it; a function of the characters alone.
pub uninterp spec fn lower_of(s: Seq<char>) -> Seq<char>;

/// Relies on `str::to_lowercase`: returns the Unicode lowercase of the text,
/// which depends on the characters alone.
#[verifier::external_body]
fn lowercase(s: &str) -> (r: String)
    ensures
        r@ == lower_of(s@),
{
    s.to_lowercase()
}

/// The status each keyword stands for, once the text is already trimmed
/// and lowercased.
pub open spec fn keyword_status(s: Seq<char>) -> Option<Status> {
    if s == "todo"@ || s == "to-do"@ {
        Some(Status::ToDo)
    } else if s == "in progress"@ || s == "in-progress"@ || s == "inprogress"@ {
        Some(Status::InProgress)
    } else if s == "done"@ {
        Some(Status::Done)
    } else {
        None
    }
}

/// What parsing a status string yields: the keyword match on the trimmed,
/// lowercased text.
pub open spec fn parsed_status(s: Seq<char>) -> Option<Status> {
    keyword_status(lower_of(trimmed(s)))
}

/// The keyword match itself, on text that is already trimmed and lowercased.
pub fn status_of_keyword(s: &str) -> (r: Option<Status>)
    ensures
        r == keyword_status(s@),
{
    if str_eq(s, "todo") || str_eq(s, "to-do") {
        Some(Status::ToDo)
    } else if str_eq(s, "in progress") || str_eq(s, "in-progress") || str_eq(s, "inprogress") {
        Some(Status::InProgress)
    } else if str_eq(s, "done") {
        Some(Status::Done)
    } else {
        None
    }
}

/// The display form of each status.
pub open spec fn status_text(s: Status) -> Seq<char> {
    match s {
        Status::ToDo => "To-do"@,
        Status::InProgress => "In progress"@,
        Status::Done => "Done"@,
    }
}

impl Status {
    /// Parses a status keyword, ignoring case and surrounding whitespace;
    /// an unrecognized literal comes back unchanged inside the error.
    pub fn try_from(value: &str) -> (r: Result<Status, StatusError>)
        ensures
            match r {
                Ok(st) => parsed_status(value@) == Some(st),
                Err(StatusError::ParseError(orig)) => parsed_status(value@) is None && orig@
                    == value@,
            },
    {
        let t = trim_str(value);
        let low = lowercase(t);
        match status_of_keyword(low.as_str()) {
            Some(st) => Ok(st),
            None => Err(StatusError::ParseError(value.to_owned())),
        }
    }

    pub fn text(&self) -> (r: String)
        ensures
            r@ == status_text(*self),
    {
        match self {
            Status::ToDo => "To-do".to_owned(),
            Status::InProgress => "In progress".to_owned(),
            Status::Done => "Done".to_owned(),
        }
    }
}

impl StatusError {
    /// The wording of the parse failure, quoting the rejected text.
    pub fn message(&self) -> (r: String)
        ensures
            match self {
                StatusError::ParseError(orig) => r@ == "Failed to parse \""@ + orig@
                    + "\" into Status type."@,
            },
    {
        match self {
            StatusError::ParseError(orig) => {
                let mut m = "Failed to parse \"".to_owned();
                m.append(orig.as_str());
                m.append("\" into Status type.");
                m
            },
        }
    }
}

} // verus!

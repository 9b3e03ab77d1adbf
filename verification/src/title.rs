//! Validated ticket titles: non-blank text of at most `MAX_TITLE_LEN` bytes.

use vstd::prelude::*;
use crate::text::{byte_len, is_blank, is_blank_str};

verus! {

pub const MAX_TITLE_LEN: usize = 50;

/// A title is valid when it is not whitespace alone and its UTF-8 encoding
/// fits in `MAX_TITLE_LEN` bytes.
pub open spec fn valid_title(s: Seq<char>) -> bool {
    !is_blank(s) && byte_len(s) <= MAX_TITLE_LEN
}

/// A ticket title that passed validation.
#[derive(Debug, Clone, PartialEq, Eq, PartialOrd, Ord)]
pub struct TicketTitle(String);

impl View for TicketTitle {
    type V = Seq<char>;

    closed spec fn view(&self) -> Seq<char> {
        self.0@
    }
}

#[derive(Debug, Clone, PartialEq, Eq, Structural)]
pub enum TicketTitleError {
    NoTitle,
    TitleTooLong,
}

/// Rejects a title that is whitespace alone, then one whose UTF-8 encoding
/// is longer than `MAX_TITLE_LEN` bytes.
pub fn validate(value: &String) -> (r: Result<(), TicketTitleError>)
    ensures
        match r {
            Ok(()) => valid_title(value@),
            Err(TicketTitleError::NoTitle) => is_blank(value@),
            Err(TicketTitleError::TitleTooLong) => !is_blank(value@) && byte_len(value@)
                > MAX_TITLE_LEN,
        },
{
    if is_blank_str(value.as_str()) {
        Err(TicketTitleError::NoTitle)
    } else if value.as_str().as_bytes().len() > MAX_TITLE_LEN {
        Err(TicketTitleError::TitleTooLong)
    } else {
        Ok(())
    }
}

impl TicketTitle {
    pub open spec fn wf(&self) -> bool {
        valid_title(self@)
    }

    /// Accepts exactly the valid titles and keeps their text unchanged.
    pub fn try_from(value: &str) -> (r: Result<TicketTitle, TicketTitleError>)
        ensures
            match r {
                Ok(t) => t@ == value@ && t.wf(),
                Err(TicketTitleError::NoTitle) => is_blank(value@),
                Err(TicketTitleError::TitleTooLong) => !is_blank(value@) && byte_len(value@)
                    > MAX_TITLE_LEN,
            },
    {
        Self::try_from_string(value.to_owned())
    }

    /// As `try_from`, taking ownership of the text.
    pub fn try_from_string(value: String) -> (r: Result<TicketTitle, TicketTitleError>)
        ensures
            match r {
                Ok(t) => t@ == value@ && t.wf(),
                Err(TicketTitleError::NoTitle) => is_blank(value@),
                Err(TicketTitleError::TitleTooLong) => !is_blank(value@) && byte_len(value@)
                    > MAX_TITLE_LEN,
            },
    {
        match validate(&value) {
            Ok(()) => Ok(TicketTitle(value)),
            Err(e) => Err(e),
        }
    }

    pub fn as_str(&self) -> (r: &str)
        ensures
            r@ == self@,
    {
        self.0.as_str()
    }

    /// A copy with the same text.
    pub fn duplicate(&self) -> (r: TicketTitle)
        ensures
            r@ == self@,
    {
        TicketTitle(self.0.clone())
    }
}

impl TicketTitleError {
    /// The wording of each validation failure.
    pub fn message(&self) -> (r: String)
        ensures
            match self {
                TicketTitleError::NoTitle => r@ == "Ticket title is empty!"@,
                TicketTitleError::TitleTooLong => r@
                    == "Ticket title is too long! It must be 50 bytes!"@,
            },
    {
        match self {
            TicketTitleError::NoTitle => "Ticket title is empty!".to_owned(),
            TicketTitleError::TitleTooLong => "Ticket title is too long! It must be 50 bytes!".to_owned(),
        }
    }
}

} // verus!

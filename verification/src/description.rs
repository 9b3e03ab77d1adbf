//! Validated ticket descriptions: non-blank text of at most
//! `MAX_DESCRIPTION_LEN` bytes.

use vstd::prelude::*;
use crate::text::{byte_len, is_blank, is_blank_str};

verus! {

pub const MAX_DESCRIPTION_LEN: usize = 500;

/// A description is valid when it is not whitespace alone and its UTF-8
/// encoding fits in `MAX_DESCRIPTION_LEN` bytes.
pub open spec fn valid_description(s: Seq<char>) -> bool {
    !is_blank(s) && byte_len(s) <= MAX_DESCRIPTION_LEN
}

/// A ticket description that passed validation.
#[derive(Debug, Clone, PartialEq, Eq, PartialOrd, Ord)]
pub struct TicketDescription(String);

impl View for TicketDescription {
    type V = Seq<char>;

    closed spec fn view(&self) -> Seq<char> {
        self.0@
    }
}

#[derive(Debug, Clone, PartialEq, Eq, Structural)]
pub enum TicketDescriptionError {
    NoDescription,
    DescriptionTooLong,
}

/// Rejects a description that is whitespace alone, then one whose UTF-8
/// encoding is longer than `MAX_DESCRIPTION_LEN` bytes.
pub fn validate(value: &str) -> (r: Result<(), TicketDescriptionError>)
    ensures
        match r {
            Ok(()) => valid_description(value@),
            Err(TicketDescriptionError::NoDescription) => is_blank(value@),
            Err(TicketDescriptionError::DescriptionTooLong) => !is_blank(value@) && byte_len(
                value@,
            ) > MAX_DESCRIPTION_LEN,
        },
{
    if is_blank_str(value) {
        Err(TicketDescriptionError::NoDescription)
    } else if value.as_bytes().len() > MAX_DESCRIPTION_LEN {
        Err(TicketDescriptionError::DescriptionTooLong)
    } else {
        Ok(())
    }
}

impl TicketDescription {
    pub open spec fn wf(&self) -> bool {
        valid_description(self@)
    }

    /// Accepts exactly the valid descriptions and keeps their text unchanged.
    pub fn try_from(value: &str) -> (r: Result<TicketDescription, TicketDescriptionError>)
        ensures
            match r {
                Ok(d) => d@ == value@ && d.wf(),
                Err(TicketDescriptionError::NoDescription) => is_blank(value@),
                Err(TicketDescriptionError::DescriptionTooLong) => !is_blank(value@) && byte_len(
                    value@,
                ) > MAX_DESCRIPTION_LEN,
            },
    {
        Self::try_from_string(value.to_owned())
    }

    /// As `try_from`, taking ownership of the text.
    pub fn try_from_string(value: String) -> (r: Result<TicketDescription, TicketDescriptionError>)
        ensures
            match r {
                Ok(d) => d@ == value@ && d.wf(),
                Err(TicketDescriptionError::NoDescription) => is_blank(value@),
                Err(TicketDescriptionError::DescriptionTooLong) => !is_blank(value@) && byte_len(
                    value@,
                ) > MAX_DESCRIPTION_LEN,
            },
    {
        match validate(value.as_str()) {
            Ok(()) => Ok(TicketDescription(value)),
            Err(e) => Err(e),
        }
    }

    pub fn as_str(&self) -> (r: &str)
        ensures
            r@ == self@,
    {
        self.0.as_str()
    }

    /// A copy with the same text.
    pub fn duplicate(&self) -> (r: TicketDescription)
        ensures
            r@ == self@,
    {
        TicketDescription(self.0.clone())
    }
}

impl TicketDescriptionError {
    /// The wording of each validation failure.
    pub fn message(&self) -> (r: String)
        ensures
            match self {
                TicketDescriptionError::NoDescription => r@ == "Ticket description is empty!"@,
                TicketDescriptionError::DescriptionTooLong => r@
                    == "Ticket description is too long! It must be 500 bytes!"@,
            },
    {
        match self {
            TicketDescriptionError::NoDescription => "Ticket description is empty!".to_owned(),
            TicketDescriptionError::DescriptionTooLong => "Ticket description is too long! It must be 500 bytes!".to_owned(),
        }
    }
}

} // verus!

//! The ticket record and the request shapes around it: the draft that
//! creates a ticket and the merge-style patch that updates one.

use vstd::prelude::*;
use crate::description::TicketDescription;
use crate::status::Status;
use crate::title::TicketTitle;

verus! {

/// Identifier of a stored ticket: assigned once at insertion, strictly
/// increasing from zero, never reused.
#[derive(Clone, Copy, Debug, PartialEq, Eq, PartialOrd, Ord, Structural)]
pub struct TicketId(pub u64);

/// A stored ticket record.
#[derive(Debug, Clone, PartialEq, Eq, PartialOrd, Ord)]
pub struct Ticket {
    pub id: TicketId,
    pub title: TicketTitle,
    pub description: TicketDescription,
    pub status: Status,
}

/// The mathematical content of a ticket.
pub ghost struct TicketView {
    pub id: u64,
    pub title: Seq<char>,
    pub description: Seq<char>,
    pub status: Status,
}

impl View for Ticket {
    type V = TicketView;

    open spec fn view(&self) -> TicketView {
        TicketView {
            id: self.id.0,
            title: self.title@,
            description: self.description@,
            status: self.status,
        }
    }
}

/// A creation request: the id and the initial status are assigned at
/// insertion.
#[derive(Debug, Clone, PartialEq, Eq, PartialOrd, Ord)]
pub struct TicketDraft {
    pub title: TicketTitle,
    pub description: TicketDescription,
}

/// A merge-style update: a present field is applied, an absent field leaves
/// the stored value unchanged.
#[derive(Debug, Clone, PartialEq, Eq, PartialOrd, Ord)]
pub struct TicketPatch {
    pub id: TicketId,
    pub title: Option<TicketTitle>,
    pub description: Option<TicketDescription>,
    pub status: Option<Status>,
}

/// The mathematical content of a patch.
pub ghost struct PatchView {
    pub id: u64,
    pub title: Option<Seq<char>>,
    pub description: Option<Seq<char>>,
    pub status: Option<Status>,
}

impl View for TicketPatch {
    type V = PatchView;

    open spec fn view(&self) -> PatchView {
        PatchView {
            id: self.id.0,
            title: match self.title {
                Some(t) => Some(t@),
                None => None,
            },
            description: match self.description {
                Some(d) => Some(d@),
                None => None,
            },
            status: self.status,
        }
    }
}

/// The record a patch leaves behind: each field present in the patch takes
/// its new value, each absent field keeps the stored one, and the id never
/// changes.
pub open spec fn patch_applied(t: TicketView, p: PatchView) -> TicketView {
    TicketView {
        id: t.id,
        title: match p.title {
            Some(s) => s,
            None => t.title,
        },
        description: match p.description {
            Some(s) => s,
            None => t.description,
        },
        status: match p.status {
            Some(s) => s,
            None => t.status,
        },
    }
}

/// Field independence of patching: a patch modifies only the fields it
/// carries, and no patch moves a ticket to another id.
pub proof fn lemma_patch_field_independence(t: TicketView, p: PatchView)
    ensures
        patch_applied(t, p).id == t.id,
        p.title is None ==> patch_applied(t, p).title == t.title,
        p.description is None ==> patch_applied(t, p).description == t.description,
        p.status is None ==> patch_applied(t, p).status == t.status,
        p.title matches Some(s) ==> patch_applied(t, p).title == s,
        p.description matches Some(s) ==> patch_applied(t, p).description == s,
        p.status matches Some(s) ==> patch_applied(t, p).status == s,
{
}

impl Ticket {
    /// A copy with the same fields.
    pub fn duplicate(&self) -> (r: Ticket)
        ensures
            r@ == self@,
    {
        Ticket {
            id: self.id,
            title: self.title.duplicate(),
            description: self.description.duplicate(),
            status: self.status,
        }
    }

    /// Applies a merge-style patch in place: exactly the fields present in
    /// the patch change.
    pub fn apply_patch(&mut self, patch: &TicketPatch)
        ensures
            final(self)@ == patch_applied(old(self)@, patch@),
    {
        match &patch.title {
            Some(t) => {
                self.title = t.duplicate();
            },
            None => {},
        }
        match &patch.description {
            Some(d) => {
                self.description = d.duplicate();
            },
            None => {},
        }
        match &patch.status {
            Some(s) => {
                self.status = *s;
            },
            None => {},
        }
    }
}

impl TicketDraft {
    /// A copy with the same fields.
    pub fn duplicate(&self) -> (r: TicketDraft)
        ensures
            r.title@ == self.title@,
            r.description@ == self.description@,
    {
        TicketDraft { title: self.title.duplicate(), description: self.description.duplicate() }
    }
}

} // verus!

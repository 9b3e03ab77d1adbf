//! The ticket table: an ordered mapping from identifier to ticket.
//!
//! Identifiers are assigned by an internal counter confined to `add_ticket`,
//! the single structural writer, so they are strictly increasing from zero
//! with no duplicates and no gaps.  Because of that shape the table stores
//! the ticket with id `k` at position `k`.

use vstd::prelude::*;
use crate::data::{patch_applied, PatchView, Ticket, TicketDraft, TicketId, TicketPatch, TicketView};
use crate::status::Status;

verus! {

/// In-memory table of all tickets, in insertion order.
pub struct TicketStore {
    tickets: Vec<Ticket>,
    counter: u64,
}

/// What a lookup of `id` finds in a table with contents `s`: ids equal the
/// positions they are stored at, so the lookup is an index check.
pub open spec fn table_lookup(s: Seq<TicketView>, id: u64) -> Option<TicketView> {
    if id < s.len() {
        Some(s[id as int])
    } else {
        None
    }
}

impl View for TicketStore {
    type V = Seq<TicketView>;

    closed spec fn view(&self) -> Seq<TicketView> {
        self.tickets@.map_values(|t: Ticket| t@)
    }
}

impl TicketStore {
    /// The table's invariant: the counter counts the stored tickets, and the
    /// ticket at position `k` carries id `k`.
    pub closed spec fn wf(&self) -> bool {
        &&& self.counter as int == self.tickets@.len()
        &&& forall|i: int|
            0 <= i < self.tickets@.len() ==> (#[trigger] self.tickets@[i])@.id == i as u64
    }

    /// Identifiers are exactly the positions: the ticket stored at position
    /// `k` carries id `k`, so after `n` insertions the assigned ids are
    /// exactly `0, ..., n - 1`, with no duplicates and no gaps.
    pub proof fn lemma_ids_are_positions(&self)
        requires
            self.wf(),
        ensures
            forall|i: int| 0 <= i < self@.len() ==> (#[trigger] self@[i]).id == i as u64,
            forall|i: int, j: int|
                0 <= i < self@.len() && 0 <= j < self@.len() && i != j ==> (#[trigger] self@[i]).id
                    != (#[trigger] self@[j]).id,
    {
        assert forall|i: int| 0 <= i < self@.len() implies (#[trigger] self@[i]).id == i as u64 by {
            assert(self@[i] == self.tickets@[i]@);
        }
    }

    pub fn new() -> (r: TicketStore)
        ensures
            r.wf(),
            r@ == Seq::<TicketView>::empty(),
    {
        let r = TicketStore { tickets: Vec::new(), counter: 0 };
        proof {
            assert(r@ =~= Seq::<TicketView>::empty());
        }
        r
    }

    /// How many tickets the table holds.
    pub fn count(&self) -> (r: u64)
        requires
            self.wf(),
        ensures
            r as int == self@.len(),
    {
        self.counter
    }

    /// Inserts a new ticket built from the draft: it receives the next
    /// identifier — the number of tickets stored so far — and the initial
    /// status, and becomes visible to lookups at once.
    pub fn add_ticket(&mut self, ticket: TicketDraft) -> (id: TicketId)
        requires
            old(self).wf(),
            old(self)@.len() < u64::MAX,
        ensures
            final(self).wf(),
            id.0 as int == old(self)@.len(),
            final(self)@ == old(self)@.push(
                TicketView {
                    id: id.0,
                    title: ticket.title@,
                    description: ticket.description@,
                    status: Status::ToDo,
                },
            ),
    {
        let id = TicketId(self.counter);
        self.counter = self.counter + 1;
        let stored = Ticket {
            id,
            title: ticket.title,
            description: ticket.description,
            status: Status::ToDo,
        };
        self.tickets.push(stored);
        proof {
            assert(self@ =~= old(self)@.push(self.tickets@.last()@));
        }
        id
    }

    /// Looks the ticket up by id; `None` exactly when no ticket with that id
    /// was ever inserted.
    pub fn get(&self, id: TicketId) -> (r: Option<&Ticket>)
        requires
            self.wf(),
        ensures
            match r {
                Some(t) => table_lookup(self@, id.0) == Some(t@),
                None => table_lookup(self@, id.0) is None,
            },
    {
        let n = self.tickets.len();
        if id.0 < n as u64 {
            let idx = id.0 as usize;
            proof {
                assert(self@[id.0 as int] == self.tickets@[id.0 as int]@);
            }
            Some(&self.tickets[idx])
        } else {
            None
        }
    }

    /// Applies a merge-style patch to the ticket the patch names and returns
    /// the post-patch snapshot; `None` exactly when the id is unknown, and
    /// then the table is unchanged.  Fields absent from the patch keep their
    /// stored values.
    pub fn patch(&mut self, patch: &TicketPatch) -> (r: Option<Ticket>)
        requires
            old(self).wf(),
        ensures
            final(self).wf(),
            match r {
                Some(t) => {
                    &&& patch.id.0 < old(self)@.len()
                    &&& t@ == patch_applied(old(self)@[patch.id.0 as int], patch@)
                    &&& final(self)@ == old(self)@.update(patch.id.0 as int, t@)
                },
                None => {
                    &&& patch.id.0 >= old(self)@.len()
                    &&& final(self)@ == old(self)@
                },
            },
    {
        let n = self.tickets.len();
        if patch.id.0 < n as u64 {
            let idx = patch.id.0 as usize;
            proof {
                assert(old(self)@[patch.id.0 as int] == self.tickets@[patch.id.0 as int]@);
            }
            let mut updated = self.tickets[idx].duplicate();
            updated.apply_patch(patch);
            let snapshot = updated.duplicate();
            self.tickets.set(idx, updated);
            proof {
                assert(self@ =~= old(self)@.update(patch.id.0 as int, snapshot@));
            }
            Some(snapshot)
        } else {
            None
        }
    }

    /// All tickets, ascending by id.
    pub fn list(&self) -> (r: &Vec<Ticket>)
        ensures
            r@.len() == self@.len(),
            forall|i: int| 0 <= i < r@.len() ==> (#[trigger] r@[i])@ == self@[i],
    {
        &self.tickets
    }
}

/// Inserting and then looking the new id up finds the freshly built ticket:
/// the draft's title and description, the initial status, and the assigned
/// id.
pub proof fn lemma_insert_then_get(s: Seq<TicketView>, title: Seq<char>, description: Seq<char>)
    requires
        s.len() < u64::MAX,
    ensures
        table_lookup(
            s.push(TicketView { id: s.len() as u64, title, description, status: Status::ToDo }),
            s.len() as u64,
        ) == Some(TicketView { id: s.len() as u64, title, description, status: Status::ToDo }),
{
}

/// Patching and then looking the same id up finds exactly the patched
/// record, and no other ticket moved.
pub proof fn lemma_patch_then_get(s: Seq<TicketView>, id: u64, p: PatchView)
    requires
        id < s.len(),
    ensures
        table_lookup(s.update(id as int, patch_applied(s[id as int], p)), id) == Some(
            patch_applied(s[id as int], p),
        ),
        forall|other: u64|
            other < s.len() && other != id ==> table_lookup(
                s.update(id as int, patch_applied(s[id as int], p)),
                other,
            ) == table_lookup(s, other),
{
}

} // verus!

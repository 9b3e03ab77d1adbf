use ticket_store::data::{TicketDraft, TicketId, TicketPatch};
use ticket_store::description::TicketDescription;
use ticket_store::status::Status;
use ticket_store::store::TicketStore;
use ticket_store::title::TicketTitle;

fn create_draft(title: &str, description: &str) -> TicketDraft {
    TicketDraft {
        title: TicketTitle::try_from(title).unwrap(),
        description: TicketDescription::try_from(description).unwrap(),
    }
}

#[test]
fn check_if_add_ticket_returns_incrementing_ids_starting_from_zero() {
    let mut store = TicketStore::new();

    let id0 = store.add_ticket(create_draft("First", "First ticket"));
    let id1 = store.add_ticket(create_draft("Second", "Second ticket"));
    let id2 = store.add_ticket(create_draft("Third", "Third ticket"));

    assert_eq!(id0, TicketId(0));
    assert_eq!(id1, TicketId(1));
    assert_eq!(id2, TicketId(2));
}

#[test]
fn check_if_get_unknown_id_returns_none() {
    let store = TicketStore::new();
    assert!(store.get(TicketId(42)).is_none());
}

#[test]
fn check_if_get_returns_inserted_ticket_with_default_status() {
    let mut store = TicketStore::new();

    let id = store.add_ticket(create_draft("The thing", "A very scary movie..."));
    let got = store.get(id).unwrap();

    assert_eq!(got.id, id);
    assert_eq!(got.status, Status::ToDo);
    assert_eq!(got.description.as_str(), "A very scary movie...");
}

#[test]
fn check_if_insert_then_get_returns_the_draft_fields() {
    let mut store = TicketStore::new();

    let id = store.add_ticket(create_draft("Cats", "The movie!"));
    let got = store.get(id).unwrap();

    assert_eq!(got.status, Status::ToDo);
    assert_eq!(got.title.as_str(), "Cats");
    assert_eq!(got.description.as_str(), "The movie!");
}

#[test]
fn check_if_get_on_empty_store_returns_not_found() {
    let store = TicketStore::new();
    assert!(store.get(TicketId(999)).is_none());
}

#[test]
fn check_if_patch_updates_status_and_keeps_other_fields() {
    let mut store = TicketStore::new();

    let id = store.add_ticket(create_draft("The Science", "A documentary about science."));
    let patch = TicketPatch { id, title: None, description: None, status: Some(Status::InProgress) };

    let snapshot = store.patch(&patch).unwrap();
    assert_eq!(snapshot.status, Status::InProgress);

    let got = store.get(id).unwrap();
    assert_eq!(got.status, Status::InProgress);
    assert_eq!(got.title.as_str(), "The Science");
    assert_eq!(got.description.as_str(), "A documentary about science.");
}

#[test]
fn check_if_patch_of_description_leaves_title_and_status_alone() {
    let mut store = TicketStore::new();

    let id = store.add_ticket(create_draft("Stable", "old text"));
    let patch = TicketPatch {
        id,
        title: None,
        description: Some(TicketDescription::try_from("new").unwrap()),
        status: None,
    };

    let snapshot = store.patch(&patch).unwrap();
    assert_eq!(snapshot.description.as_str(), "new");

    let got = store.get(id).unwrap();
    assert_eq!(got.title.as_str(), "Stable");
    assert_eq!(got.status, Status::ToDo);
    assert_eq!(got.description.as_str(), "new");
}

#[test]
fn check_if_patch_of_unknown_id_returns_none_and_changes_nothing() {
    let mut store = TicketStore::new();

    let id = store.add_ticket(create_draft("Only", "The only ticket"));
    let patch = TicketPatch {
        id: TicketId(7),
        title: None,
        description: None,
        status: Some(Status::Done),
    };

    assert!(store.patch(&patch).is_none());
    assert_eq!(store.get(id).unwrap().status, Status::ToDo);
    assert_eq!(store.count(), 1);
}

#[test]
fn check_if_two_reads_of_the_same_ticket_agree() {
    let mut store = TicketStore::new();

    let id = store.add_ticket(create_draft("The Parallel", "A check on RwLock."));
    let a = store.get(id).unwrap().clone();
    let b = store.get(id).unwrap().clone();

    assert_eq!(a.id, id);
    assert_eq!(b.id, id);
    assert_eq!(a.status, Status::ToDo);
    assert_eq!(b.status, Status::ToDo);
    assert_eq!(a.title.as_str(), b.title.as_str());
    assert_eq!(a.description.as_str(), b.description.as_str());
}

#[test]
fn check_if_list_returns_all_tickets_in_id_order() {
    let mut store = TicketStore::new();

    store.add_ticket(create_draft("First", "First ticket"));
    store.add_ticket(create_draft("Second", "Second ticket"));

    let all = store.list();
    assert_eq!(all.len(), 2);
    assert_eq!(all[0].id, TicketId(0));
    assert_eq!(all[1].id, TicketId(1));
    assert_eq!(all[0].title.as_str(), "First");
    assert_eq!(all[1].title.as_str(), "Second");
}

use std::sync::mpsc::sync_channel;
use ticket_store::actor::{reply_outcome, server, Command, TicketStoreClient, TicketStoreClientError};
use ticket_store::data::{Ticket, TicketDraft, TicketId};
use ticket_store::description::TicketDescription;
use ticket_store::status::Status;
use ticket_store::title::TicketTitle;

fn create_draft(title: &str, description: &str) -> TicketDraft {
    TicketDraft {
        title: TicketTitle::try_from(title).unwrap(),
        description: TicketDescription::try_from(description).unwrap(),
    }
}

#[test]
fn check_if_server_assigns_distinct_increasing_ids() {
    let (tx, rx) = sync_channel::<Command>(8);

    let mut reply_rxs = Vec::new();
    for i in 0..3 {
        let (reply_tx, reply_rx) = sync_channel::<TicketId>(1);
        tx.send(Command::Insert {
            draft: create_draft(&format!("Ticket {i}"), "queued before the server runs"),
            response_channel: reply_tx,
        })
        .unwrap();
        reply_rxs.push(reply_rx);
    }
    drop(tx);

    server(rx);

    let ids: Vec<u64> = reply_rxs.into_iter().map(|r| r.recv().unwrap().0).collect();
    assert_eq!(ids, vec![0, 1, 2]);
}

#[test]
fn check_if_server_answers_get_with_the_inserted_ticket() {
    let (tx, rx) = sync_channel::<Command>(8);

    let (insert_tx, insert_rx) = sync_channel::<TicketId>(1);
    tx.send(Command::Insert {
        draft: create_draft("Cats", "The movie!"),
        response_channel: insert_tx,
    })
    .unwrap();

    let (get_tx, get_rx) = sync_channel::<Option<Ticket>>(1);
    tx.send(Command::Get { id: TicketId(0), response_channel: get_tx }).unwrap();

    let (missing_tx, missing_rx) = sync_channel::<Option<Ticket>>(1);
    tx.send(Command::Get { id: TicketId(999), response_channel: missing_tx }).unwrap();

    drop(tx);
    server(rx);

    assert_eq!(insert_rx.recv().unwrap(), TicketId(0));

    let ticket = get_rx.recv().unwrap().expect("ticket 0 was inserted");
    assert_eq!(ticket.id, TicketId(0));
    assert_eq!(ticket.status, Status::ToDo);
    assert_eq!(ticket.title.as_str(), "Cats");
    assert_eq!(ticket.description.as_str(), "The movie!");

    assert!(missing_rx.recv().unwrap().is_none());
}

#[test]
fn check_if_server_tolerates_an_abandoned_reply_channel() {
    let (tx, rx) = sync_channel::<Command>(8);

    let (gone_tx, gone_rx) = sync_channel::<TicketId>(1);
    drop(gone_rx);
    tx.send(Command::Insert {
        draft: create_draft("Ignored", "the caller went away"),
        response_channel: gone_tx,
    })
    .unwrap();

    let (reply_tx, reply_rx) = sync_channel::<TicketId>(1);
    tx.send(Command::Insert {
        draft: create_draft("Counted", "still gets the next id"),
        response_channel: reply_tx,
    })
    .unwrap();

    drop(tx);
    server(rx);

    assert_eq!(reply_rx.recv().unwrap(), TicketId(1));
}

#[test]
fn check_if_client_reports_send_error_after_shutdown() {
    let (tx, rx) = sync_channel::<Command>(1);
    drop(rx);
    let client = TicketStoreClient::new(tx);

    let inserted = client.insert(create_draft("Too late", "the server is gone"));
    assert_eq!(inserted, Err(TicketStoreClientError::SendError));

    let got = client.get(TicketId(0));
    assert_eq!(got, Err(TicketStoreClientError::SendError));
}

#[test]
fn check_if_reply_outcome_maps_replies_and_losses() {
    assert_eq!(reply_outcome(Some(TicketId(3))), Ok(TicketId(3)));
    assert_eq!(
        reply_outcome::<TicketId>(None),
        Err(TicketStoreClientError::RecvError)
    );
}

#[test]
fn check_client_error_messages() {
    assert_eq!(TicketStoreClientError::SendError.message(), "Failed to send command!");
    assert_eq!(
        TicketStoreClientError::RecvError.message(),
        "Failed to recv response from client!"
    );
}


use scrum::store::get_closed_tickets;
use scrum::store::get_open_tickets;
use scrum::store::next_id;
use scrum::store::Error;
use scrum::TicketStatus;
use scrum::Tickets;

fn ticket(id: i32, title: &str, status: TicketStatus) -> Tickets {
    Tickets::new(
        id,
        title.to_string(),
        String::new(),
        status,
        "Low".to_string(),
        0,
        0,
    )
}

#[test]
fn partition_splits_by_status_and_keeps_order() {
    let all = vec![
        ticket(1, "a", TicketStatus::Open),
        ticket(2, "b", TicketStatus::Closed),
        ticket(3, "c", TicketStatus::Open),
        ticket(4, "d", TicketStatus::Closed),
    ];
    let open = get_open_tickets(&all);
    let closed = get_closed_tickets(&all);
    assert_eq!(open.len(), 2);
    assert_eq!(closed.len(), 2);
    assert_eq!(open.len() + closed.len(), all.len());
    assert_eq!(open[0].id, 1);
    assert_eq!(open[1].id, 3);
    assert_eq!(closed[0].id, 2);
    assert_eq!(closed[1].id, 4);
    for t in &open {
        assert!(matches!(t.status, TicketStatus::Open));
    }
    for t in &closed {
        assert!(matches!(t.status, TicketStatus::Closed));
    }
}

#[test]
fn partition_of_empty_collection_is_empty() {
    let all: Vec<Tickets> = Vec::new();
    assert_eq!(get_open_tickets(&all).len(), 0);
    assert_eq!(get_closed_tickets(&all).len(), 0);
}

#[test]
fn next_id_of_empty_collection_is_one() {
    let all: Vec<Tickets> = Vec::new();
    assert_eq!(next_id(&all), 1);
}

#[test]
fn next_id_is_one_past_the_largest_id() {
    let all = vec![
        ticket(2, "a", TicketStatus::Open),
        ticket(7, "b", TicketStatus::Closed),
        ticket(4, "c", TicketStatus::Open),
    ];
    assert_eq!(next_id(&all), 8);
}

#[test]
fn next_id_with_negative_ids_is_still_one() {
    let all = vec![ticket(-3, "a", TicketStatus::Open)];
    assert_eq!(next_id(&all), 1);
}

#[test]
fn error_messages_name_the_failure() {
    assert_eq!(Error::StorageUnavailable.message(), "Storage unavailable");
    assert_eq!(Error::CorruptData.message(), "Ticket data is corrupt");
}

#[test]
fn status_names() {
    assert_eq!(TicketStatus::Open.to_string(), "Open");
    assert_eq!(TicketStatus::Closed.to_string(), "Closed");
}

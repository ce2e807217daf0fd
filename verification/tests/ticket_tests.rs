use scrum::TicketAction;
use scrum::TicketPriority;
use scrum::TicketStatus;
use scrum::Tickets;

#[test]
fn new_ticket_carries_its_fields_and_no_notes() {
    let t = Tickets::new(
        9,
        "Title".to_string(),
        "Desc".to_string(),
        TicketStatus::Closed,
        "High".to_string(),
        11,
        22,
    );
    assert_eq!(t.id, 9);
    assert_eq!(t.title, "Title");
    assert_eq!(t.description, "Desc");
    assert!(t.notes.is_none());
    assert!(matches!(t.status, TicketStatus::Closed));
    assert_eq!(t.priority, "High");
    assert_eq!(t.created_at, 11);
    assert_eq!(t.updated_at, 22);
}

#[test]
fn neighbouring_ids() {
    let t = Tickets::new(
        9,
        String::new(),
        String::new(),
        TicketStatus::Open,
        String::new(),
        0,
        0,
    );
    assert_eq!(t.next_id(), 10);
    assert_eq!(t.prev_id(), 8);
}

#[test]
fn default_ticket_is_blank_and_open_with_id_zero() {
    let t = Tickets::default();
    assert_eq!(t.id, 0);
    assert_eq!(t.title, "");
    assert_eq!(t.description, "");
    assert!(t.notes.is_none());
    assert!(matches!(t.status, TicketStatus::Open));
    assert_eq!(t.priority, "");
}

#[test]
fn sample_ticket_fields() {
    let t = Tickets::sample();
    assert_eq!(t.id, 0);
    assert_eq!(t.title, "Sample Ticket");
    assert_eq!(t.description, "This is a sample description");
    assert_eq!(t.priority, "Low");
    assert!(matches!(t.status, TicketStatus::Open));
}

#[test]
fn priority_names() {
    assert_eq!(TicketPriority::Low.get_priority(), "Low");
    assert_eq!(TicketPriority::Medium.get_priority(), "Medium");
    assert_eq!(TicketPriority::High.get_priority(), "High");
}

#[test]
fn priority_levels_by_number() {
    assert_eq!(TicketPriority::int_to_string(1), "Low");
    assert_eq!(TicketPriority::int_to_string(2), "Medium");
    assert_eq!(TicketPriority::int_to_string(3), "High");
    assert_eq!(TicketPriority::int_to_string(0), "");
    assert_eq!(TicketPriority::int_to_string(42), "");
}

#[test]
fn action_names() {
    assert_eq!(TicketAction::Create.to_string(), "Create");
    assert_eq!(TicketAction::Update.to_string(), "Update");
    assert_eq!(TicketAction::Delete.to_string(), "Delete");
    assert_eq!(TicketAction::UpdateDb.to_string(), "UpdateDb");
}

#[test]
fn cloned_ticket_matches_the_original() {
    let mut t = Tickets::new(
        3,
        "T".to_string(),
        "D".to_string(),
        TicketStatus::Open,
        "Medium".to_string(),
        1,
        2,
    );
    t.notes = Some(vec![scrum::Note::new("note".to_string(), 5, 6)]);
    let c = t.clone();
    assert_eq!(c.id, t.id);
    assert_eq!(c.title, t.title);
    assert_eq!(c.description, t.description);
    assert_eq!(c.priority, t.priority);
    assert_eq!(c.notes.as_ref().unwrap().len(), 1);
    assert_eq!(c.notes.as_ref().unwrap()[0].text, "note");
}

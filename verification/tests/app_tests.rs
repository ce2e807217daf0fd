use scrum::app::add_note;
use scrum::app::add_ticket;
use scrum::app::dispatch;
use scrum::app::dispatch_event;
use scrum::app::edit_ticket_at_index;
use scrum::app::init_add_note;
use scrum::app::init_add_ticket;
use scrum::app::remove_ticket_at_index;
use scrum::app::storage_failed;
use scrum::app::toggle_ticket_status;
use scrum::app::update_db;
use scrum::app::update_selected_ticket;
use scrum::app::update_ticket_count;
use scrum::AppState;
use scrum::EditItem;
use scrum::Effect;
use scrum::Event;
use scrum::KeyInput;
use scrum::MenuItem;
use scrum::SortBy;
use scrum::TicketStatus;
use scrum::TicketViewMode;
use scrum::Tickets;

fn ticket(id: i32, title: &str, status: TicketStatus) -> Tickets {
    Tickets::new(
        id,
        title.to_string(),
        String::new(),
        status,
        "Low".to_string(),
        0,
        0,
    )
}

fn loaded(all: Vec<Tickets>) -> AppState {
    let mut app = AppState::default();
    update_ticket_count(&mut app, &all);
    app
}

fn key(app: &mut AppState, k: KeyInput, now: i64) -> Effect {
    dispatch(app, Event::Input(k), now)
}

#[test]
fn fresh_state_shows_the_open_list_with_nothing_selected() {
    let app = AppState::default();
    assert!(matches!(app.ticket_view_mode, TicketViewMode::Open));
    assert!(matches!(app.active_menu_item, MenuItem::Tickets));
    assert!(app.open_tickets.is_empty());
    assert!(app.closed_tickets.is_empty());
    assert_eq!(app.ticket_list_state, None);
    assert!(matches!(app.sort_by, SortBy::ID));
}

#[test]
fn loading_tickets_fills_both_partitions_and_selects_the_top() {
    let app = loaded(vec![
        ticket(1, "a", TicketStatus::Open),
        ticket(2, "b", TicketStatus::Closed),
        ticket(3, "c", TicketStatus::Open),
    ]);
    assert_eq!(app.open_tickets.len(), 2);
    assert_eq!(app.closed_tickets.len(), 1);
    assert_eq!(app.ticket_list_state, Some(0));
}

#[test]
fn scenario_create_ticket_through_the_keyboard() {
    // Start with only {id 0, open}; add a ticket through the edit form and
    // expect it to land in the open partition with id 1 and its typed
    // fields.
    let mut app = loaded(vec![ticket(0, "Seed", TicketStatus::Open)]);
    key(&mut app, KeyInput::Char('a'), 10);
    assert!(matches!(app.active_menu_item, MenuItem::EditForm));
    for c in "Fix leak".chars() {
        key(&mut app, KeyInput::Char(c), 10);
    }
    key(&mut app, KeyInput::Tab, 10);
    for c in "pipe".chars() {
        key(&mut app, KeyInput::Char(c), 10);
    }
    key(&mut app, KeyInput::Tab, 10);
    // The priority list starts on Low; one step down wraps to High.
    key(&mut app, KeyInput::Down, 10);
    key(&mut app, KeyInput::Tab, 10);
    // Status stays Open; enter on the status field saves.
    let eff = key(&mut app, KeyInput::Enter, 42);
    assert!(matches!(app.active_menu_item, MenuItem::Tickets));
    assert_eq!(app.open_tickets.len(), 2);
    let t = &app.open_tickets[1];
    assert_eq!(t.id, 1);
    assert_eq!(t.title, "Fix leak");
    assert_eq!(t.description, "pipe");
    assert_eq!(t.priority, "High");
    assert!(matches!(t.status, TicketStatus::Open));
    assert_eq!(t.created_at, 42);
    assert_eq!(t.updated_at, 42);
    match eff {
        Effect::Save(all) => assert_eq!(all.len(), 2),
        _ => panic!("a commit must hand back the collection to persist"),
    }
}

#[test]
fn scenario_delete_last_of_three_moves_selection_up() {
    // From three open tickets with the last one highlighted, delete moves
    // the highlight to the second row and shrinks the partition.
    let mut app = loaded(vec![
        ticket(1, "a", TicketStatus::Open),
        ticket(2, "b", TicketStatus::Open),
        ticket(3, "c", TicketStatus::Open),
    ]);
    app.ticket_list_state = Some(2);
    let eff = key(&mut app, KeyInput::Ctrl('k'), 10);
    assert_eq!(app.open_tickets.len(), 2);
    assert_eq!(app.ticket_list_state, Some(1));
    assert_eq!(app.open_tickets[0].id, 1);
    assert_eq!(app.open_tickets[1].id, 2);
    assert!(matches!(eff, Effect::Save(_)));
}

#[test]
fn scenario_toggling_to_an_empty_partition_clears_the_selection() {
    // Toggle to the empty closed view: nothing is selected, and the arrow
    // keys are swallowed without any effect.
    let mut app = loaded(vec![ticket(1, "a", TicketStatus::Open)]);
    key(&mut app, KeyInput::Char('v'), 10);
    assert!(matches!(app.ticket_view_mode, TicketViewMode::Closed));
    assert_eq!(app.ticket_list_state, None);
    key(&mut app, KeyInput::Down, 10);
    assert_eq!(app.ticket_list_state, None);
    key(&mut app, KeyInput::Up, 10);
    assert_eq!(app.ticket_list_state, None);
}

#[test]
fn commit_without_changes_reproduces_the_ticket_with_a_newer_stamp() {
    let mut t = ticket(4, "same", TicketStatus::Open);
    t.priority = "Medium".to_string();
    t.description = "keep".to_string();
    t.created_at = 7;
    t.updated_at = 7;
    let mut app = loaded(vec![t]);
    edit_ticket_at_index(&mut app);
    assert_eq!(app.edit_priority_state, 1);
    assert_eq!(app.edit_status_state, 0);
    let saved = add_ticket(&mut app, 99);
    assert!(saved.is_some());
    assert_eq!(app.open_tickets.len(), 1);
    let r = &app.open_tickets[0];
    assert_eq!(r.id, 4);
    assert_eq!(r.title, "same");
    assert_eq!(r.description, "keep");
    assert_eq!(r.priority, "Medium");
    assert_eq!(r.created_at, 7);
    assert_eq!(r.updated_at, 99);
    assert!(r.updated_at >= 7);
}

#[test]
fn committing_a_status_change_moves_the_ticket_between_partitions() {
    let mut app = loaded(vec![
        ticket(1, "stay", TicketStatus::Open),
        ticket(2, "move", TicketStatus::Open),
    ]);
    app.ticket_list_state = Some(1);
    key(&mut app, KeyInput::Char('e'), 10);
    // Tab to the status list, cycle it to Closed, then save.
    key(&mut app, KeyInput::Tab, 10);
    key(&mut app, KeyInput::Tab, 10);
    key(&mut app, KeyInput::Tab, 10);
    assert!(matches!(app.edit_focus, EditItem::Status));
    key(&mut app, KeyInput::Down, 10);
    let eff = key(&mut app, KeyInput::Enter, 55);
    assert_eq!(app.open_tickets.len(), 1);
    assert_eq!(app.open_tickets[0].id, 1);
    assert_eq!(app.closed_tickets.len(), 1);
    let moved = &app.closed_tickets[0];
    assert_eq!(moved.id, 2);
    assert!(matches!(moved.status, TicketStatus::Closed));
    assert_eq!(moved.updated_at, 55);
    assert_eq!(app.ticket_list_state, Some(0));
    match eff {
        Effect::Save(all) => assert_eq!(all.len(), 2),
        _ => panic!("a commit must hand back the collection to persist"),
    }
}

#[test]
fn ids_stay_distinct_over_creates_and_deletes() {
    let mut app = AppState::default();
    init_add_ticket(&mut app);
    add_ticket(&mut app, 1);
    init_add_ticket(&mut app);
    add_ticket(&mut app, 2);
    assert_eq!(app.open_tickets[0].id, 1);
    assert_eq!(app.open_tickets[1].id, 2);
    app.ticket_list_state = Some(0);
    remove_ticket_at_index(&mut app);
    init_add_ticket(&mut app);
    add_ticket(&mut app, 3);
    let ids: Vec<i32> = app.open_tickets.iter().map(|t| t.id).collect();
    assert_eq!(ids, vec![2, 3]);
}

#[test]
fn deleting_the_sole_ticket_clears_the_selection() {
    let mut app = loaded(vec![ticket(1, "only", TicketStatus::Open)]);
    let eff = remove_ticket_at_index(&mut app);
    assert!(eff.is_some());
    assert!(app.open_tickets.is_empty());
    assert_eq!(app.ticket_list_state, None);
}

#[test]
fn delete_with_nothing_selected_is_swallowed() {
    let mut app = AppState::default();
    let eff = remove_ticket_at_index(&mut app);
    assert!(eff.is_none());
    assert_eq!(app.ticket_list_state, None);
}

#[test]
fn selection_rule_cases() {
    let mut app = loaded(vec![
        ticket(1, "a", TicketStatus::Open),
        ticket(2, "b", TicketStatus::Open),
    ]);
    update_selected_ticket(&mut app, 2);
    assert_eq!(app.ticket_list_state, Some(1));
    update_selected_ticket(&mut app, 0);
    assert_eq!(app.ticket_list_state, Some(0));
}

#[test]
fn toggle_status_from_the_list_moves_and_stamps() {
    let mut app = loaded(vec![ticket(1, "a", TicketStatus::Open)]);
    let eff = toggle_ticket_status(&mut app, 33);
    assert!(eff.is_some());
    assert!(app.open_tickets.is_empty());
    assert_eq!(app.closed_tickets.len(), 1);
    assert!(matches!(app.closed_tickets[0].status, TicketStatus::Closed));
    assert_eq!(app.closed_tickets[0].updated_at, 33);
    assert_eq!(app.ticket_list_state, None);
    // And back again, from the closed view.
    key(&mut app, KeyInput::Char('v'), 40);
    assert_eq!(app.ticket_list_state, Some(0));
    toggle_ticket_status(&mut app, 44);
    assert!(app.closed_tickets.is_empty());
    assert_eq!(app.open_tickets.len(), 1);
    assert!(matches!(app.open_tickets[0].status, TicketStatus::Open));
}

#[test]
fn notes_are_appended_through_the_note_form() {
    let mut app = loaded(vec![ticket(1, "a", TicketStatus::Open)]);
    key(&mut app, KeyInput::Char('n'), 10);
    assert!(matches!(app.active_menu_item, MenuItem::NoteForm));
    assert_eq!(app.prompt, "Enter Note");
    for c in "pump".chars() {
        key(&mut app, KeyInput::Char(c), 10);
    }
    // The first enter stages the line, the second one saves it.
    key(&mut app, KeyInput::Enter, 10);
    assert_eq!(app.messages.len(), 1);
    assert_eq!(app.prompt, "Hit Enter to save or Esc to cancel");
    let eff = key(&mut app, KeyInput::Enter, 77);
    assert!(matches!(eff, Effect::Save(_)));
    assert!(matches!(app.active_menu_item, MenuItem::Tickets));
    let notes = app.open_tickets[0].notes.as_ref().unwrap();
    assert_eq!(notes.len(), 1);
    assert_eq!(notes[0].text, "pump");
    assert_eq!(notes[0].created_at, 77);
    assert_eq!(app.open_tickets[0].updated_at, 77);
}

#[test]
fn an_empty_note_is_refused() {
    let mut app = loaded(vec![ticket(1, "a", TicketStatus::Open)]);
    key(&mut app, KeyInput::Char('n'), 10);
    let eff = key(&mut app, KeyInput::Enter, 10);
    assert!(matches!(eff, Effect::Continue));
    assert!(app.messages.is_empty());
    assert!(matches!(app.active_menu_item, MenuItem::NoteForm));
}

#[test]
fn a_second_note_goes_after_the_first() {
    let mut app = loaded(vec![ticket(1, "a", TicketStatus::Open)]);
    init_add_note(&mut app);
    app.messages.push("first".to_string());
    add_note(&mut app, 5);
    init_add_note(&mut app);
    app.messages.push("second".to_string());
    add_note(&mut app, 6);
    let notes = app.open_tickets[0].notes.as_ref().unwrap();
    assert_eq!(notes.len(), 2);
    assert_eq!(notes[0].text, "first");
    assert_eq!(notes[1].text, "second");
}

#[test]
fn escape_abandons_an_edit_without_touching_the_store() {
    let mut app = loaded(vec![ticket(1, "keep", TicketStatus::Open)]);
    key(&mut app, KeyInput::Char('e'), 10);
    for c in "XYZ".chars() {
        key(&mut app, KeyInput::Char(c), 10);
    }
    key(&mut app, KeyInput::Esc, 10);
    assert!(matches!(app.active_menu_item, MenuItem::Tickets));
    assert_eq!(app.open_tickets[0].title, "keep");
}

#[test]
fn backspace_removes_the_last_typed_character() {
    let mut app = loaded(vec![ticket(1, "ab", TicketStatus::Open)]);
    key(&mut app, KeyInput::Char('e'), 10);
    key(&mut app, KeyInput::Backspace, 10);
    assert_eq!(app.edit_ticket.title, "a");
    key(&mut app, KeyInput::Backspace, 10);
    assert_eq!(app.edit_ticket.title, "");
    key(&mut app, KeyInput::Backspace, 10);
    assert_eq!(app.edit_ticket.title, "");
}

#[test]
fn arrows_wrap_around_the_list() {
    let mut app = loaded(vec![
        ticket(1, "a", TicketStatus::Open),
        ticket(2, "b", TicketStatus::Open),
    ]);
    key(&mut app, KeyInput::Down, 10);
    assert_eq!(app.ticket_list_state, Some(1));
    key(&mut app, KeyInput::Down, 10);
    assert_eq!(app.ticket_list_state, Some(0));
    key(&mut app, KeyInput::Up, 10);
    assert_eq!(app.ticket_list_state, Some(1));
}

#[test]
fn editing_a_high_priority_ticket_points_the_form_at_high() {
    let mut t = ticket(1, "a", TicketStatus::Open);
    t.priority = "High".to_string();
    let mut app = loaded(vec![t]);
    edit_ticket_at_index(&mut app);
    assert_eq!(app.edit_priority_state, 0);
    let saved = add_ticket(&mut app, 10);
    assert!(saved.is_some());
    assert_eq!(app.open_tickets[0].priority, "High");
}

#[test]
fn the_help_screen_opens_and_closes() {
    let mut app = AppState::default();
    key(&mut app, KeyInput::Char('h'), 10);
    assert!(matches!(app.active_menu_item, MenuItem::Help));
    key(&mut app, KeyInput::Esc, 10);
    assert!(matches!(app.active_menu_item, MenuItem::Tickets));
}

#[test]
fn sort_keys_set_the_comparator() {
    let mut app = AppState::default();
    key(&mut app, KeyInput::F(2), 10);
    assert!(matches!(app.sort_by, SortBy::Title));
    key(&mut app, KeyInput::F(3), 10);
    assert!(matches!(app.sort_by, SortBy::Priority));
    key(&mut app, KeyInput::F(4), 10);
    assert!(matches!(app.sort_by, SortBy::Updated));
    key(&mut app, KeyInput::F(1), 10);
    assert!(matches!(app.sort_by, SortBy::ID));
}

#[test]
fn quit_key_only_works_on_the_ticket_list() {
    let mut app = AppState::default();
    key(&mut app, KeyInput::Char('a'), 10);
    let eff = key(&mut app, KeyInput::Char('q'), 10);
    assert!(matches!(eff, Effect::Continue));
    key(&mut app, KeyInput::Esc, 10);
    let eff = key(&mut app, KeyInput::Char('q'), 10);
    assert!(matches!(eff, Effect::Quit));
}

#[test]
fn the_persisted_collection_is_open_then_closed() {
    let app = loaded(vec![
        ticket(1, "a", TicketStatus::Open),
        ticket(2, "b", TicketStatus::Closed),
        ticket(3, "c", TicketStatus::Open),
    ]);
    let all = update_db(&app);
    let ids: Vec<i32> = all.iter().map(|t| t.id).collect();
    assert_eq!(ids, vec![1, 3, 2]);
}

#[test]
fn a_failed_save_raises_the_banner() {
    let mut app = AppState::default();
    storage_failed(&mut app, scrum::Error::StorageUnavailable);
    assert_eq!(app.prompt, "Storage unavailable");
    storage_failed(&mut app, scrum::Error::CorruptData);
    assert_eq!(app.prompt, "Ticket data is corrupt");
}

#[test]
fn ticks_change_nothing() {
    let mut app = loaded(vec![ticket(1, "a", TicketStatus::Open)]);
    let eff = dispatch(&mut app, Event::Tick, 10);
    assert!(matches!(eff, Effect::Continue));
    assert_eq!(app.open_tickets.len(), 1);
    let eff = dispatch_event(&mut app, Event::Tick);
    assert!(matches!(eff, Effect::Continue));
}

#[test]
fn page_keys_scroll_the_detail_pane() {
    let mut app = loaded(vec![ticket(1, "a", TicketStatus::Open)]);
    key(&mut app, KeyInput::PageDown, 10);
    key(&mut app, KeyInput::PageDown, 10);
    assert_eq!(app.scroll, 2);
    key(&mut app, KeyInput::PageUp, 10);
    assert_eq!(app.scroll, 1);
    key(&mut app, KeyInput::PageUp, 10);
    key(&mut app, KeyInput::PageUp, 10);
    assert_eq!(app.scroll, 0);
}

#[test]
fn tab_cycles_over_all_five_fields() {
    let mut app = loaded(vec![ticket(1, "a", TicketStatus::Open)]);
    key(&mut app, KeyInput::Char('e'), 10);
    assert!(matches!(app.edit_focus, EditItem::Title));
    for expected in [
        EditItem::Description,
        EditItem::Priority,
        EditItem::Status,
        EditItem::Notes,
        EditItem::Title,
    ] {
        key(&mut app, KeyInput::Tab, 10);
        assert_eq!(app.edit_focus, expected);
    }
    key(&mut app, KeyInput::BackTab, 10);
    assert_eq!(app.edit_focus, EditItem::Notes);
}

#[test]
fn set_focus_moves_the_focus() {
    let mut f = EditItem::Title;
    f.set_focus(EditItem::Status);
    assert_eq!(f, EditItem::Status);
}

#[test]
fn the_confirmation_screen_swallows_everything() {
    let mut app = loaded(vec![ticket(1, "a", TicketStatus::Open)]);
    app.active_menu_item = MenuItem::ConfirmForm;
    let eff = key(&mut app, KeyInput::Char('q'), 10);
    assert!(matches!(eff, Effect::Continue));
    assert!(matches!(app.active_menu_item, MenuItem::ConfirmForm));
    key(&mut app, KeyInput::Esc, 10);
    assert!(matches!(app.active_menu_item, MenuItem::ConfirmForm));
}

#[test]
fn editing_works_from_the_closed_view_too() {
    let mut app = loaded(vec![
        ticket(1, "open", TicketStatus::Open),
        ticket(2, "closed", TicketStatus::Closed),
    ]);
    key(&mut app, KeyInput::Char('v'), 10);
    assert!(matches!(app.ticket_view_mode, TicketViewMode::Closed));
    key(&mut app, KeyInput::Char('e'), 10);
    assert_eq!(app.edit_ticket.id, 2);
    assert_eq!(app.edit_status_state, 1);
    for c in "!".chars() {
        key(&mut app, KeyInput::Char(c), 10);
    }
    key(&mut app, KeyInput::F(5), 90);
    assert_eq!(app.closed_tickets.len(), 1);
    assert_eq!(app.closed_tickets[0].title, "closed!");
    assert_eq!(app.closed_tickets[0].updated_at, 90);
    assert_eq!(app.open_tickets.len(), 1);
}

#[test]
fn a_refresh_that_shrinks_the_partition_repairs_the_selection() {
    let mut app = loaded(vec![
        ticket(1, "a", TicketStatus::Open),
        ticket(2, "b", TicketStatus::Open),
        ticket(3, "c", TicketStatus::Open),
    ]);
    app.ticket_list_state = Some(2);
    update_ticket_count(&mut app, &vec![ticket(1, "a", TicketStatus::Open)]);
    assert_eq!(app.ticket_list_state, Some(0));
    update_ticket_count(&mut app, &Vec::new());
    assert_eq!(app.ticket_list_state, None);
}

#[test]
fn the_note_key_without_a_selection_only_clears_the_staged_note() {
    let mut app = AppState::default();
    app.messages.push("stale".to_string());
    init_add_note(&mut app);
    assert!(app.messages.is_empty());
    assert!(matches!(app.active_menu_item, MenuItem::Tickets));
}

#[test]
fn a_commit_stamped_by_the_clock_gets_a_plausible_time() {
    let mut app = AppState::default();
    init_add_ticket(&mut app);
    for c in "now".chars() {
        dispatch_event(&mut app, Event::Input(KeyInput::Char(c)));
    }
    // Jump to the status field and save with the wall clock's stamp.
    dispatch_event(&mut app, Event::Input(KeyInput::Tab));
    dispatch_event(&mut app, Event::Input(KeyInput::Tab));
    dispatch_event(&mut app, Event::Input(KeyInput::Tab));
    dispatch_event(&mut app, Event::Input(KeyInput::Enter));
    assert_eq!(app.open_tickets.len(), 1);
    // Well after 2020-01-01 and well before the year 3000.
    let stamp = app.open_tickets[0].created_at;
    assert!(stamp > 1_577_000_000);
    assert!(stamp < 32_500_000_000);
}

//! The interactive state of the tracker: which screen is active, which
//! ticket is highlighted, what an edit session has staged, and how each key
//! press moves all of that forward.
//!
//! Every mutating operation states its effect relationally, over the ghost
//! views of the tickets it touches; the key dispatcher routes events to
//! those operations exactly as the screen transition table prescribes.

use vstd::prelude::*;
use crate::store::closed_of;
use crate::store::max_id_of;
use crate::store::next_id_of;
use crate::store::open_of;
use crate::ticket::Note;
use crate::ticket::NoteView;
use crate::ticket::TicketStatus;
use crate::ticket::TicketView;
use crate::ticket::Tickets;

verus! {

/// Which partition the ticket list shows.
#[derive(Clone, Copy, Debug, PartialEq, Eq, Structural)]
pub enum TicketViewMode {
    Open,
    Closed,
}

/// Which screen is active.
#[derive(Clone, Copy, Debug, PartialEq, Eq, Structural)]
pub enum MenuItem {
    Tickets,
    EditForm,
    NoteForm,
    ConfirmForm,
    Help,
}

/// Which comparator the renderer applies to the displayed partition.
#[derive(Clone, Copy, Debug, PartialEq, Eq, Structural)]
pub enum SortBy {
    ID,
    Title,
    Priority,
    Updated,
}

/// Which field of the edit form receives input.
#[derive(Clone, Copy, Debug, PartialEq, Eq, Structural)]
pub enum EditItem {
    Title,
    Description,
    Priority,
    Status,
    Notes,
}

impl EditItem {
    /// Moves the input focus to the given field.
    pub fn set_focus(&mut self, new_focus: EditItem)
        ensures
            *final(self) == new_focus,
    {
        *self = new_focus;
    }
}

/// A key press, reduced to what the dispatcher distinguishes.
#[derive(Clone, Copy, Debug, PartialEq, Eq, Structural)]
pub enum KeyInput {
    Char(char),
    Ctrl(char),
    Enter,
    Tab,
    BackTab,
    Backspace,
    Esc,
    Up,
    Down,
    PageUp,
    PageDown,
    F(u8),
}

/// What the event source delivers: a key press, or a timer tick.
#[derive(Clone, Copy, Debug, PartialEq, Eq, Structural)]
pub enum Event {
    Input(KeyInput),
    Tick,
}

/// What the caller of the dispatcher must do next.
#[derive(Debug)]
pub enum Effect {
    /// Nothing beyond redrawing.
    Continue,
    /// Leave the event loop.
    Quit,
    /// Persist this full collection, then keep going; if persisting fails,
    /// restore the state from before the dispatch and report the failure.
    Save(Vec<Tickets>),
}

/// The whole in-memory state of the tracker.
#[derive(Debug)]
pub struct AppState {
    pub ticket_view_mode: TicketViewMode,
    pub active_menu_item: MenuItem,
    pub open_tickets: Vec<Tickets>,
    pub closed_tickets: Vec<Tickets>,
    /// The highlighted row of the shown partition; nothing when that
    /// partition is empty.
    pub ticket_list_state: Option<usize>,
    /// The highlighted row of the edit form's priority list:
    /// 0 high, 1 medium, 2 low.
    pub edit_priority_state: usize,
    /// The highlighted row of the edit form's status list:
    /// 0 open, 1 closed.
    pub edit_status_state: usize,
    /// The scratch copy of the ticket being created or edited.
    pub edit_ticket: Tickets,
    /// Whether the scratch copy was never persisted, so that committing it
    /// must assign a fresh id.
    pub edit_is_new: bool,
    pub edit_focus: EditItem,
    /// The staged note text while the note form awaits its confirmation.
    pub messages: Vec<String>,
    /// The line being typed on the note form.
    pub input: String,
    /// The instruction or error banner shown above the input line.
    pub prompt: String,
    /// How far the detail pane is scrolled.
    pub scroll: u16,
    pub sort_by: SortBy,
}

impl AppState {
    /// The partition the current view mode shows.
    pub open spec fn active(self) -> Seq<TicketView> {
        match self.ticket_view_mode {
            TicketViewMode::Open => self.open_tickets.deep_view(),
            TicketViewMode::Closed => self.closed_tickets.deep_view(),
        }
    }

    /// The partition the current view mode hides.
    pub open spec fn inactive(self) -> Seq<TicketView> {
        match self.ticket_view_mode {
            TicketViewMode::Open => self.closed_tickets.deep_view(),
            TicketViewMode::Closed => self.open_tickets.deep_view(),
        }
    }

    /// Every ticket of the open partition is open.
    pub open spec fn open_partition_pure(self) -> bool {
        forall|j: int|
            0 <= j < self.open_tickets.deep_view().len()
                ==> (#[trigger] self.open_tickets.deep_view()[j]).status is Open
    }

    /// Every ticket of the closed partition is closed.
    pub open spec fn closed_partition_pure(self) -> bool {
        forall|j: int|
            0 <= j < self.closed_tickets.deep_view().len()
                ==> (#[trigger] self.closed_tickets.deep_view()[j]).status is Closed
    }

    /// The state's standing invariant: the highlighted row exists exactly
    /// when the shown partition is non-empty, the form's two choice lists
    /// point at real entries, and each partition holds only tickets of its
    /// status.
    pub open spec fn wf(self) -> bool {
        &&& match self.ticket_list_state {
            Some(i) => i < self.active().len(),
            None => self.active().len() == 0,
        }
        &&& self.edit_priority_state < 3
        &&& self.edit_status_state < 2
        &&& self.open_partition_pure()
        &&& self.closed_partition_pure()
    }

    /// A fresh state: open view, ticket list screen, no tickets loaded yet.
    pub fn default() -> (r: AppState)
        ensures
            r.wf(),
            r.ticket_view_mode is Open,
            r.active_menu_item is Tickets,
            r.open_tickets.deep_view() == Seq::<TicketView>::empty(),
            r.closed_tickets.deep_view() == Seq::<TicketView>::empty(),
            r.ticket_list_state is None,
            r.edit_priority_state == 2,
            r.edit_status_state == 0,
            r.edit_ticket@ == Tickets::default_view(),
            r.edit_is_new == false,
            r.edit_focus is Title,
            r.messages@ == Seq::<String>::empty(),
            r.input@ == Seq::<char>::empty(),
            r.prompt@ == "Enter Title"@,
            r.scroll == 0,
            r.sort_by is ID,
    {
        let r = AppState {
            ticket_view_mode: TicketViewMode::Open,
            active_menu_item: MenuItem::Tickets,
            open_tickets: Vec::new(),
            closed_tickets: Vec::new(),
            ticket_list_state: None,
            edit_priority_state: 2,
            edit_status_state: 0,
            edit_ticket: Tickets::default(),
            edit_is_new: false,
            edit_focus: EditItem::Title,
            messages: Vec::new(),
            input: String::new(),
            prompt: "Enter Title".to_owned(),
            scroll: 0,
            sort_by: SortBy::ID,
        };
        proof {
            assert(r.open_tickets.deep_view() =~= Seq::<TicketView>::empty());
            assert(r.closed_tickets.deep_view() =~= Seq::<TicketView>::empty());
        }
        r
    }
}

impl Clone for AppState {
    /// A snapshot of the whole state, equal to the original in every view;
    /// callers keep one to restore the state when persisting a change
    /// fails.
    fn clone(&self) -> (r: Self)
        ensures
            r.ticket_view_mode == self.ticket_view_mode,
            r.active_menu_item == self.active_menu_item,
            r.open_tickets.deep_view() == self.open_tickets.deep_view(),
            r.closed_tickets.deep_view() == self.closed_tickets.deep_view(),
            r.ticket_list_state == self.ticket_list_state,
            r.edit_priority_state == self.edit_priority_state,
            r.edit_status_state == self.edit_status_state,
            r.edit_ticket@ == self.edit_ticket@,
            r.edit_is_new == self.edit_is_new,
            r.edit_focus == self.edit_focus,
            r.messages@ == self.messages@,
            r.input == self.input,
            r.prompt == self.prompt,
            r.scroll == self.scroll,
            r.sort_by == self.sort_by,
            r.wf() == self.wf(),
    {
        let messages = self.messages.clone();
        proof {
            assert(messages@ =~= self.messages@);
        }
        AppState {
            ticket_view_mode: self.ticket_view_mode,
            active_menu_item: self.active_menu_item,
            open_tickets: crate::ticket::clone_tickets(&self.open_tickets),
            closed_tickets: crate::ticket::clone_tickets(&self.closed_tickets),
            ticket_list_state: self.ticket_list_state,
            edit_priority_state: self.edit_priority_state,
            edit_status_state: self.edit_status_state,
            edit_ticket: self.edit_ticket.clone(),
            edit_is_new: self.edit_is_new,
            edit_focus: self.edit_focus,
            messages,
            input: self.input.clone(),
            prompt: self.prompt.clone(),
            scroll: self.scroll,
            sort_by: self.sort_by,
        }
    }
}

/// The selection the delete rule leaves behind: removing row `selected`
/// from the shown partition, which now has `len` rows, moves the highlight
/// to the row above when there was one, clears it when the partition
/// emptied, and keeps it at the top otherwise.
pub open spec fn selection_after_removal(selected: int, len: int, sel: Option<usize>) -> bool {
    if len == 0 {
        sel is None
    } else if selected > 0 {
        sel == Some((selected - 1) as usize)
    } else {
        sel == Some(0usize)
    }
}

/// The selection after the partitions were re-derived: cleared when the
/// shown partition is empty, kept when it still points at a row, moved to
/// the top otherwise.
pub open spec fn refreshed_selection(pre_sel: Option<usize>, len: int, sel: Option<usize>) -> bool {
    if len == 0 {
        sel is None
    } else {
        match pre_sel {
            Some(i) => if i < len {
                sel == Some(i)
            } else {
                sel == Some(0usize)
            },
            None => sel == Some(0usize),
        }
    }
}

impl AppState {
    /// Re-points the highlight after the shown partition changed, per
    /// [`refreshed_selection`]. Touches nothing else.
    fn repair_selection(&mut self)
        ensures
            (*final(self) == AppState { ticket_list_state: final(self).ticket_list_state, ..*old(self) }),
            refreshed_selection(
                old(self).ticket_list_state,
                old(self).active().len() as int,
                final(self).ticket_list_state,
            ),
    {
        let len = match self.ticket_view_mode {
            TicketViewMode::Open => self.open_tickets.len(),
            TicketViewMode::Closed => self.closed_tickets.len(),
        };
        self.ticket_list_state = if len == 0 {
            None
        } else {
            match self.ticket_list_state {
                Some(i) => if i < len {
                    Some(i)
                } else {
                    Some(0)
                },
                None => Some(0),
            }
        };
    }
}

/// Moves the highlight up after a removal, per the delete rule: the row
/// that was above the removed one, or the top, or nothing when the shown
/// partition emptied. `selected` is the index the removal happened at.
pub fn update_selected_ticket(app: &mut AppState, selected: usize)
    requires
        selected <= old(app).active().len(),
    ensures
        (*final(app) == AppState { ticket_list_state: final(app).ticket_list_state, ..*old(app) }),
        selection_after_removal(
            selected as int,
            old(app).active().len() as int,
            final(app).ticket_list_state,
        ),
        final(app).wf() <== old(app).wf(),
{
    let len = match app.ticket_view_mode {
        TicketViewMode::Open => app.open_tickets.len(),
        TicketViewMode::Closed => app.closed_tickets.len(),
    };
    app.ticket_list_state = if len == 0 {
        None
    } else if selected > 0 {
        Some(selected - 1)
    } else {
        Some(0)
    };
}

/// Re-derives both partitions from the given full collection and repairs
/// the highlight — the read-through refresh that follows every committed
/// mutation, and the way a freshly loaded collection enters the state.
pub fn update_ticket_count(app: &mut AppState, all: &Vec<Tickets>)
    ensures
        (*final(app) == AppState {
            open_tickets: final(app).open_tickets,
            closed_tickets: final(app).closed_tickets,
            ticket_list_state: final(app).ticket_list_state,
            ..*old(app)
        }),
        final(app).open_tickets.deep_view() == open_of(all.deep_view()),
        final(app).closed_tickets.deep_view() == closed_of(all.deep_view()),
        refreshed_selection(
            old(app).ticket_list_state,
            final(app).active().len() as int,
            final(app).ticket_list_state,
        ),
        old(app).edit_priority_state < 3 && old(app).edit_status_state < 2 ==> final(app).wf(),
{
    proof {
        crate::store::lemma_partitions_pure(all.deep_view());
    }
    app.open_tickets = crate::store::get_open_tickets(all);
    app.closed_tickets = crate::store::get_closed_tickets(all);
    app.repair_selection();
}

/// Opening a create session: a fresh low-priority open scratch ticket,
/// the edit form shown with the title focused, and the form's choice
/// lists pointing at that priority and status.
pub open spec fn begin_create_rel(pre: AppState, post: AppState) -> bool {
    &&& (post == AppState {
        edit_ticket: post.edit_ticket,
        edit_is_new: true,
        edit_priority_state: 2,
        edit_status_state: 0,
        edit_focus: EditItem::Title,
        active_menu_item: MenuItem::EditForm,
        prompt: post.prompt,
        ..pre
    })
    &&& post.edit_ticket@ == (TicketView { priority: "Low"@, ..Tickets::default_view() })
    &&& post.prompt@ == "Enter Title"@
}

/// Opening an edit session on the highlighted ticket: its verbatim clone
/// becomes the scratch copy, the form's choice lists point at its current
/// priority and status, and the edit form is shown with the title focused.
/// With no highlighted row, nothing happens.
pub open spec fn begin_edit_rel(pre: AppState, post: AppState) -> bool {
    match pre.ticket_list_state {
        None => post == pre,
        Some(i) => {
            let t = pre.active()[i as int];
            &&& (post == AppState {
                edit_ticket: post.edit_ticket,
                edit_is_new: false,
                edit_priority_state: post.edit_priority_state,
                edit_status_state: post.edit_status_state,
                edit_focus: EditItem::Title,
                active_menu_item: MenuItem::EditForm,
                input: post.input,
                prompt: post.prompt,
                ..pre
            })
            &&& post.edit_ticket@ == t
            &&& post.edit_priority_state == (if t.priority == "High"@ {
                0int
            } else if t.priority == "Medium"@ {
                1int
            } else {
                2int
            })
            &&& post.edit_status_state == (if t.status is Open {
                0int
            } else {
                1int
            })
            &&& post.input@ == t.title
            &&& post.prompt@ == "Enter Title"@
        },
    }
}

/// Opening a note session on the highlighted ticket: its clone becomes the
/// scratch copy, the staged note and the input line are cleared, and the
/// note form is shown. With no highlighted row only the staged note is
/// cleared.
pub open spec fn begin_note_rel(pre: AppState, post: AppState) -> bool {
    match pre.ticket_list_state {
        None => {
            &&& (post == AppState { messages: post.messages, ..pre })
            &&& post.messages@ == Seq::<String>::empty()
        },
        Some(i) => {
            &&& (post == AppState {
                edit_ticket: post.edit_ticket,
                edit_is_new: false,
                active_menu_item: MenuItem::NoteForm,
                messages: post.messages,
                input: post.input,
                prompt: post.prompt,
                ..pre
            })
            &&& post.edit_ticket@ == pre.active()[i as int]
            &&& post.messages@ == Seq::<String>::empty()
            &&& post.input@ == Seq::<char>::empty()
            &&& post.prompt@ == "Enter Note"@
        },
    }
}

/// Opens an edit session for a brand-new ticket: a fresh scratch ticket,
/// open, with the default low priority, and the edit form focused on the
/// title. Committing it later assigns the real id.
pub fn init_add_ticket(app: &mut AppState)
    ensures
        begin_create_rel(*old(app), *final(app)),
        final(app).wf() <== old(app).wf(),
{
    app.edit_ticket = Tickets::default();
    app.edit_ticket.priority = "Low".to_owned();
    app.edit_is_new = true;
    app.edit_priority_state = 2;
    app.edit_status_state = 0;
    app.prompt = "Enter Title".to_owned();
    app.edit_focus = EditItem::Title;
    app.active_menu_item = MenuItem::EditForm;
}

/// Opens an edit session on the highlighted ticket: clones it verbatim
/// into the scratch copy, points the form's choice lists at its current
/// priority and status, and shows the edit form. Does nothing when no row
/// is highlighted.
pub fn edit_ticket_at_index(app: &mut AppState)
    requires
        old(app).wf(),
    ensures
        final(app).wf(),
        begin_edit_rel(*old(app), *final(app)),
{
    if let Some(selected) = app.ticket_list_state {
        let t = match app.ticket_view_mode {
            TicketViewMode::Open => app.open_tickets[selected].clone(),
            TicketViewMode::Closed => app.closed_tickets[selected].clone(),
        };
        app.edit_priority_state = if crate::text::str_eq(t.priority.as_str(), "High") {
            0
        } else if crate::text::str_eq(t.priority.as_str(), "Medium") {
            1
        } else {
            2
        };
        app.edit_status_state = match t.status {
            TicketStatus::Open => 0,
            TicketStatus::Closed => 1,
        };
        app.input = t.title.clone();
        app.edit_ticket = t;
        app.edit_is_new = false;
        app.prompt = "Enter Title".to_owned();
        app.edit_focus = EditItem::Title;
        app.active_menu_item = MenuItem::EditForm;
    }
}

/// Opens a note session on the highlighted ticket: clones it into the
/// scratch copy, clears the staged note, and shows the note form. When no
/// row is highlighted only the staged note is cleared.
pub fn init_add_note(app: &mut AppState)
    requires
        old(app).wf(),
    ensures
        final(app).wf(),
        begin_note_rel(*old(app), *final(app)),
{
    app.messages = Vec::new();
    if let Some(selected) = app.ticket_list_state {
        let t = match app.ticket_view_mode {
            TicketViewMode::Open => app.open_tickets[selected].clone(),
            TicketViewMode::Closed => app.closed_tickets[selected].clone(),
        };
        app.edit_ticket = t;
        app.edit_is_new = false;
        app.input = String::new();
        app.prompt = "Enter Note".to_owned();
        app.active_menu_item = MenuItem::NoteForm;
    }
}

/// The display name of the edit form's priority choice at row `i`
/// (0 high, 1 medium, anything else low).
pub open spec fn priority_choice(i: int) -> Seq<char> {
    if i == 0 {
        "High"@
    } else if i == 1 {
        "Medium"@
    } else {
        "Low"@
    }
}

/// The status of the edit form's status choice at row `i`
/// (0 open, anything else closed).
pub open spec fn status_choice(i: int) -> TicketStatus {
    if i == 0 {
        TicketStatus::Open
    } else {
        TicketStatus::Closed
    }
}

/// The status of the tickets the given view mode shows.
pub open spec fn mode_status(m: TicketViewMode) -> TicketStatus {
    match m {
        TicketViewMode::Open => TicketStatus::Open,
        TicketViewMode::Closed => TicketStatus::Closed,
    }
}

/// The other status.
pub open spec fn flipped(s: TicketStatus) -> TicketStatus {
    match s {
        TicketStatus::Open => TicketStatus::Closed,
        TicketStatus::Closed => TicketStatus::Open,
    }
}

/// The ticket an edit session commits: the scratch ticket with the form's
/// priority and status choices applied and its update time stamped.
pub open spec fn committed_ticket(pre: AppState, now: int) -> TicketView {
    TicketView {
        priority: priority_choice(pre.edit_priority_state as int),
        status: status_choice(pre.edit_status_state as int),
        updated_at: now,
        ..pre.edit_ticket@
    }
}

/// The ticket a note session commits: the scratch ticket with the staged
/// note appended and its update time stamped.
pub open spec fn note_ticket(pre: AppState, now: int) -> TicketView {
    TicketView {
        notes: pre.edit_ticket@.notes.push(
            NoteView { text: pre.messages@[0]@, created_at: now, updated_at: now },
        ),
        updated_at: now,
        ..pre.edit_ticket@
    }
}

/// After a commit the session is cleared and the ticket list is shown
/// again.
pub open spec fn session_reset(post: AppState) -> bool {
    &&& post.edit_ticket@ == Tickets::default_view()
    &&& post.input@ == Seq::<char>::empty()
    &&& post.messages@ == Seq::<String>::empty()
    &&& post.active_menu_item is Tickets
    &&& post.edit_is_new == false
}

/// The returned collection to persist is exactly the new open partition
/// followed by the new closed one.
pub open spec fn saved_collection(post: AppState, saved: Option<Vec<Tickets>>) -> bool {
    &&& saved is Some
    &&& saved.unwrap().deep_view() == post.open_tickets.deep_view()
        + post.closed_tickets.deep_view()
}

/// How a commit places ticket `t` over the highlighted row `i`: a ticket
/// whose status still matches the shown partition replaces the row in
/// place; one whose status changed is taken out of the shown partition and
/// appended to the other one, and the highlight moves per the delete rule.
/// Either way the session is cleared and the new collection is handed back
/// to be persisted.
pub open spec fn replace_commit_rel(
    pre: AppState,
    post: AppState,
    saved: Option<Vec<Tickets>>,
    t: TicketView,
    i: int,
) -> bool {
    &&& (post == AppState {
        open_tickets: post.open_tickets,
        closed_tickets: post.closed_tickets,
        ticket_list_state: post.ticket_list_state,
        edit_ticket: post.edit_ticket,
        edit_is_new: false,
        active_menu_item: MenuItem::Tickets,
        input: post.input,
        messages: post.messages,
        ..pre
    })
    &&& session_reset(post)
    &&& saved_collection(post, saved)
    &&& if t.status == mode_status(pre.ticket_view_mode) {
        &&& post.active() == pre.active().update(i, t)
        &&& post.inactive() == pre.inactive()
        &&& post.ticket_list_state == pre.ticket_list_state
    } else {
        &&& post.active() == pre.active().remove(i)
        &&& post.inactive() == pre.inactive().push(t)
        &&& selection_after_removal(i, post.active().len() as int, post.ticket_list_state)
    }
}

/// What committing an edit session does. A new ticket gets the store's
/// next id, both timestamps stamped `now`, and a place at the end of the
/// partition its status selects; an edited ticket replaces or moves per
/// [`replace_commit_rel`]; with no highlighted row an edited ticket cannot
/// be placed, and nothing happens at all.
pub open spec fn commit_rel(
    pre: AppState,
    post: AppState,
    saved: Option<Vec<Tickets>>,
    now: int,
) -> bool {
    if pre.edit_is_new {
        let all = pre.open_tickets.deep_view() + pre.closed_tickets.deep_view();
        let t = TicketView { id: next_id_of(all), created_at: now, ..committed_ticket(pre, now) };
        &&& (post == AppState {
            open_tickets: post.open_tickets,
            closed_tickets: post.closed_tickets,
            ticket_list_state: post.ticket_list_state,
            edit_ticket: post.edit_ticket,
            edit_is_new: false,
            active_menu_item: MenuItem::Tickets,
            input: post.input,
            messages: post.messages,
            ..pre
        })
        &&& t.status is Open ==> post.open_tickets.deep_view() == pre.open_tickets.deep_view().push(
            t,
        ) && post.closed_tickets == pre.closed_tickets
        &&& t.status is Closed ==> post.closed_tickets.deep_view()
            == pre.closed_tickets.deep_view().push(t) && post.open_tickets == pre.open_tickets
        &&& refreshed_selection(
            pre.ticket_list_state,
            post.active().len() as int,
            post.ticket_list_state,
        )
        &&& session_reset(post)
        &&& saved_collection(post, saved)
    } else {
        match pre.ticket_list_state {
            None => post == pre && saved is None,
            Some(i) => replace_commit_rel(pre, post, saved, committed_ticket(pre, now), i as int),
        }
    }
}

/// What committing a staged note does: the highlighted ticket is replaced
/// by the scratch copy with the note appended, per [`replace_commit_rel`];
/// with no highlighted row nothing happens.
pub open spec fn note_commit_rel(
    pre: AppState,
    post: AppState,
    saved: Option<Vec<Tickets>>,
    now: int,
) -> bool {
    match pre.ticket_list_state {
        None => post == pre && saved is None,
        Some(i) => replace_commit_rel(pre, post, saved, note_ticket(pre, now), i as int),
    }
}

/// What deleting the highlighted ticket does: it leaves the shown
/// partition, the highlight moves per the delete rule, and the new
/// collection is handed back; with no highlighted row nothing happens.
pub open spec fn delete_rel(pre: AppState, post: AppState, saved: Option<Vec<Tickets>>) -> bool {
    match pre.ticket_list_state {
        None => post == pre && saved is None,
        Some(i) => {
            &&& (post == AppState {
                open_tickets: post.open_tickets,
                closed_tickets: post.closed_tickets,
                ticket_list_state: post.ticket_list_state,
                ..pre
            })
            &&& post.active() == pre.active().remove(i as int)
            &&& post.inactive() == pre.inactive()
            &&& selection_after_removal(
                i as int,
                post.active().len() as int,
                post.ticket_list_state,
            )
            &&& saved_collection(post, saved)
        },
    }
}

/// What flipping the highlighted ticket's status does: the ticket, with
/// its status flipped and its update time stamped, moves to the end of the
/// other partition; the highlight moves per the delete rule; the new
/// collection is handed back. With no highlighted row nothing happens.
pub open spec fn toggle_status_rel(
    pre: AppState,
    post: AppState,
    saved: Option<Vec<Tickets>>,
    now: int,
) -> bool {
    match pre.ticket_list_state {
        None => post == pre && saved is None,
        Some(i) => {
            let t = TicketView {
                status: flipped(pre.active()[i as int].status),
                updated_at: now,
                ..pre.active()[i as int]
            };
            &&& (post == AppState {
                open_tickets: post.open_tickets,
                closed_tickets: post.closed_tickets,
                ticket_list_state: post.ticket_list_state,
                ..pre
            })
            &&& post.active() == pre.active().remove(i as int)
            &&& post.inactive() == pre.inactive().push(t)
            &&& selection_after_removal(
                i as int,
                post.active().len() as int,
                post.ticket_list_state,
            )
            &&& saved_collection(post, saved)
        },
    }
}

/// Places ticket `t` over the highlighted row, in place or moving it to
/// the other partition when its status no longer matches the shown one,
/// then clears the session and hands back the collection to persist.
fn replace_selected(app: &mut AppState, t: Tickets, selected: usize) -> (saved: Vec<Tickets>)
    requires
        old(app).wf(),
        old(app).ticket_list_state == Some(selected),
    ensures
        final(app).wf(),
        replace_commit_rel(*old(app), *final(app), Some(saved), t@, selected as int),
{
    let ghost pre = *old(app);
    let ghost tv = t@;
    let stays = match (&t.status, &app.ticket_view_mode) {
        (TicketStatus::Open, TicketViewMode::Open) => true,
        (TicketStatus::Closed, TicketViewMode::Closed) => true,
        _ => false,
    };
    if stays {
        match app.ticket_view_mode {
            TicketViewMode::Open => {
                let ghost dv = app.open_tickets.deep_view();
                app.open_tickets.set(selected, t);
                proof {
                    assert(app.open_tickets.deep_view() =~= dv.update(selected as int, tv));
                }
            },
            TicketViewMode::Closed => {
                let ghost dv = app.closed_tickets.deep_view();
                app.closed_tickets.set(selected, t);
                proof {
                    assert(app.closed_tickets.deep_view() =~= dv.update(selected as int, tv));
                }
            },
        }
    } else {
        match app.ticket_view_mode {
            TicketViewMode::Open => {
                let ghost dvo = app.open_tickets.deep_view();
                let ghost dvc = app.closed_tickets.deep_view();
                let _ = app.open_tickets.remove(selected);
                app.closed_tickets.push(t);
                proof {
                    assert(app.open_tickets.deep_view() =~= dvo.remove(selected as int));
                    assert(app.closed_tickets.deep_view() =~= dvc.push(tv));
                }
            },
            TicketViewMode::Closed => {
                let ghost dvo = app.open_tickets.deep_view();
                let ghost dvc = app.closed_tickets.deep_view();
                let _ = app.closed_tickets.remove(selected);
                app.open_tickets.push(t);
                proof {
                    assert(app.closed_tickets.deep_view() =~= dvc.remove(selected as int));
                    assert(app.open_tickets.deep_view() =~= dvo.push(tv));
                }
            },
        }
        update_selected_ticket(app, selected);
    }
    app.edit_ticket = Tickets::default();
    app.input = String::new();
    app.messages = Vec::new();
    app.edit_is_new = false;
    app.active_menu_item = MenuItem::Tickets;
    update_db(app)
}

/// Commits the edit session, per [`commit_rel`]: applies the form's
/// priority and status choices, assigns a fresh id and both timestamps to
/// a new ticket, replaces or moves an edited one, persists nothing itself
/// but hands the new collection back for the caller to save.
pub fn add_ticket(app: &mut AppState, now: i64) -> (saved: Option<Vec<Tickets>>)
    requires
        old(app).wf(),
        old(app).edit_is_new ==> max_id_of(
            old(app).open_tickets.deep_view() + old(app).closed_tickets.deep_view(),
        ) < i32::MAX,
    ensures
        final(app).wf(),
        commit_rel(*old(app), *final(app), saved, now as int),
{
    let ghost pre = *old(app);
    if !app.edit_is_new && app.ticket_list_state.is_none() {
        return None;
    }
    let mut t = app.edit_ticket.clone();
    t.priority = if app.edit_priority_state == 0 {
        "High".to_owned()
    } else if app.edit_priority_state == 1 {
        "Medium".to_owned()
    } else {
        "Low".to_owned()
    };
    t.status = if app.edit_status_state == 0 {
        TicketStatus::Open
    } else {
        TicketStatus::Closed
    };
    t.updated_at = now;
    proof {
        assert(t@ == committed_ticket(pre, now as int));
    }
    if app.edit_is_new {
        let all = update_db(app);
        let id = crate::store::next_id(&all);
        t.id = id;
        t.created_at = now;
        let ghost tv = t@;
        match t.status {
            TicketStatus::Open => {
                let ghost dv = app.open_tickets.deep_view();
                app.open_tickets.push(t);
                proof {
                    assert(app.open_tickets.deep_view() =~= dv.push(tv));
                }
            },
            TicketStatus::Closed => {
                let ghost dv = app.closed_tickets.deep_view();
                app.closed_tickets.push(t);
                proof {
                    assert(app.closed_tickets.deep_view() =~= dv.push(tv));
                }
            },
        }
        app.repair_selection();
        app.edit_ticket = Tickets::default();
        app.input = String::new();
        app.messages = Vec::new();
        app.edit_is_new = false;
        app.active_menu_item = MenuItem::Tickets;
        Some(update_db(app))
    } else {
        match app.ticket_list_state {
            Some(selected) => Some(replace_selected(app, t, selected)),
            None => {
                proof {
                    assert(false);
                }
                None
            },
        }
    }
}

/// Commits the note session, per [`note_commit_rel`]: appends the staged
/// note text, stamped `now`, to the scratch ticket's log and places that
/// ticket over the highlighted row.
pub fn add_note(app: &mut AppState, now: i64) -> (saved: Option<Vec<Tickets>>)
    requires
        old(app).wf(),
        old(app).messages@.len() >= 1,
    ensures
        final(app).wf(),
        note_commit_rel(*old(app), *final(app), saved, now as int),
{
    let ghost pre = *old(app);
    let selected = match app.ticket_list_state {
        Some(i) => i,
        None => {
            return None;
        },
    };
    let text = app.messages[0].clone();
    let note = Note::new(text, now, now);
    let mut t = app.edit_ticket.clone();
    match &mut t.notes {
        Some(v) => {
            v.push(note);
        },
        None => {
            let mut v: Vec<Note> = Vec::new();
            v.push(note);
            t.notes = Some(v);
        },
    }
    t.updated_at = now;
    proof {
        assert(t@.notes =~= note_ticket(pre, now as int).notes);
        assert(t@ == note_ticket(pre, now as int));
    }
    Some(replace_selected(app, t, selected))
}

/// Deletes the highlighted ticket, per [`delete_rel`]: it leaves the shown
/// partition, the highlight moves up, and the new collection is handed
/// back for the caller to save.
pub fn remove_ticket_at_index(app: &mut AppState) -> (saved: Option<Vec<Tickets>>)
    requires
        old(app).wf(),
    ensures
        final(app).wf(),
        delete_rel(*old(app), *final(app), saved),
{
    let selected = match app.ticket_list_state {
        Some(i) => i,
        None => {
            return None;
        },
    };
    match app.ticket_view_mode {
        TicketViewMode::Open => {
            let ghost dv = app.open_tickets.deep_view();
            let _ = app.open_tickets.remove(selected);
            proof {
                assert(app.open_tickets.deep_view() =~= dv.remove(selected as int));
            }
        },
        TicketViewMode::Closed => {
            let ghost dv = app.closed_tickets.deep_view();
            let _ = app.closed_tickets.remove(selected);
            proof {
                assert(app.closed_tickets.deep_view() =~= dv.remove(selected as int));
            }
        },
    }
    update_selected_ticket(app, selected);
    Some(update_db(app))
}

/// Flips the highlighted ticket's status in place, per
/// [`toggle_status_rel`]: the ticket moves to the other partition with its
/// update time stamped, and the new collection is handed back for the
/// caller to save.
pub fn toggle_ticket_status(app: &mut AppState, now: i64) -> (saved: Option<Vec<Tickets>>)
    requires
        old(app).wf(),
    ensures
        final(app).wf(),
        toggle_status_rel(*old(app), *final(app), saved, now as int),
{
    let selected = match app.ticket_list_state {
        Some(i) => i,
        None => {
            return None;
        },
    };
    match app.ticket_view_mode {
        TicketViewMode::Open => {
            let mut t = app.open_tickets[selected].clone();
            t.status = TicketStatus::Closed;
            t.updated_at = now;
            let ghost tv = t@;
            let ghost dvo = app.open_tickets.deep_view();
            let ghost dvc = app.closed_tickets.deep_view();
            let _ = app.open_tickets.remove(selected);
            app.closed_tickets.push(t);
            proof {
                assert(app.open_tickets.deep_view() =~= dvo.remove(selected as int));
                assert(app.closed_tickets.deep_view() =~= dvc.push(tv));
            }
        },
        TicketViewMode::Closed => {
            let mut t = app.closed_tickets[selected].clone();
            t.status = TicketStatus::Open;
            t.updated_at = now;
            let ghost tv = t@;
            let ghost dvo = app.open_tickets.deep_view();
            let ghost dvc = app.closed_tickets.deep_view();
            let _ = app.closed_tickets.remove(selected);
            app.open_tickets.push(t);
            proof {
                assert(app.closed_tickets.deep_view() =~= dvc.remove(selected as int));
                assert(app.open_tickets.deep_view() =~= dvo.push(tv));
            }
        },
    }
    update_selected_ticket(app, selected);
    Some(update_db(app))
}

/// The other view mode.
pub open spec fn flipped_mode(m: TicketViewMode) -> TicketViewMode {
    match m {
        TicketViewMode::Open => TicketViewMode::Closed,
        TicketViewMode::Closed => TicketViewMode::Open,
    }
}

/// The field after `f` in the edit form's tab order.
pub open spec fn next_focus(f: EditItem) -> EditItem {
    match f {
        EditItem::Title => EditItem::Description,
        EditItem::Description => EditItem::Priority,
        EditItem::Priority => EditItem::Status,
        EditItem::Status => EditItem::Notes,
        EditItem::Notes => EditItem::Title,
    }
}

/// The field before `f` in the edit form's tab order.
pub open spec fn prev_focus(f: EditItem) -> EditItem {
    match f {
        EditItem::Title => EditItem::Notes,
        EditItem::Description => EditItem::Title,
        EditItem::Priority => EditItem::Description,
        EditItem::Status => EditItem::Priority,
        EditItem::Notes => EditItem::Status,
    }
}

/// The collection a `Save` effect carries, if any.
pub open spec fn saved_of(eff: Effect) -> Option<Vec<Tickets>> {
    match eff {
        Effect::Save(v) => Some(v),
        _ => None,
    }
}

/// Only the input focus moved, to `f`.
pub open spec fn only_focus_changed(pre: AppState, post: AppState, f: EditItem) -> bool {
    post == (AppState { edit_focus: f, ..pre })
}

/// Flipping the view: the other partition is shown, highlighted at its
/// top row, or not at all when it is empty.
pub open spec fn toggle_view_rel(pre: AppState, post: AppState) -> bool {
    &&& (post == AppState {
        ticket_view_mode: flipped_mode(pre.ticket_view_mode),
        ticket_list_state: post.ticket_list_state,
        ..pre
    })
    &&& post.ticket_list_state == (if post.active().len() == 0 {
        None
    } else {
        Some(0usize)
    })
}

/// Leaving a form without saving: back to the ticket list, the input line
/// and the staged note dropped; the scratch ticket is simply left behind.
pub open spec fn cancel_rel(pre: AppState, post: AppState) -> bool {
    &&& (post == AppState {
        active_menu_item: MenuItem::Tickets,
        input: post.input,
        messages: post.messages,
        ..pre
    })
    &&& post.input@ == Seq::<char>::empty()
    &&& post.messages@ == Seq::<String>::empty()
}

/// What a key does on the ticket list screen.
pub open spec fn tickets_key_rel(
    pre: AppState,
    post: AppState,
    eff: Effect,
    key: KeyInput,
    now: int,
) -> bool {
    match key {
        KeyInput::Char(c) => if c == 'q' {
            post == pre && eff is Quit
        } else if c == 'h' {
            post == (AppState { active_menu_item: MenuItem::Help, ..pre }) && eff is Continue
        } else if c == 'a' {
            begin_create_rel(pre, post) && eff is Continue
        } else if c == 'e' {
            begin_edit_rel(pre, post) && eff is Continue
        } else if c == 'v' {
            toggle_view_rel(pre, post) && eff is Continue
        } else if c == 'n' {
            begin_note_rel(pre, post) && eff is Continue
        } else if c == 't' {
            !(eff is Quit) && toggle_status_rel(pre, post, saved_of(eff), now)
        } else {
            post == pre && eff is Continue
        },
        KeyInput::Ctrl(c) => if c == 'k' {
            !(eff is Quit) && delete_rel(pre, post, saved_of(eff))
        } else {
            post == pre && eff is Continue
        },
        KeyInput::PageDown => {
            &&& (post == AppState { scroll: post.scroll, ..pre })
            &&& post.scroll == (if pre.scroll < u16::MAX {
                (pre.scroll + 1) as u16
            } else {
                pre.scroll
            })
            &&& eff is Continue
        },
        KeyInput::PageUp => {
            &&& (post == AppState { scroll: post.scroll, ..pre })
            &&& post.scroll == (if pre.scroll > 0 {
                (pre.scroll - 1) as u16
            } else {
                0u16
            })
            &&& eff is Continue
        },
        KeyInput::Down => eff is Continue && match pre.ticket_list_state {
            None => post == pre,
            Some(i) => post == (AppState {
                scroll: 0,
                ticket_list_state: (if i + 1 < pre.active().len() {
                    Some((i + 1) as usize)
                } else {
                    Some(0usize)
                }),
                ..pre
            }),
        },
        KeyInput::Up => eff is Continue && match pre.ticket_list_state {
            None => post == pre,
            Some(i) => post == (AppState {
                scroll: 0,
                ticket_list_state: (if i > 0 {
                    Some((i - 1) as usize)
                } else {
                    Some((pre.active().len() - 1) as usize)
                }),
                ..pre
            }),
        },
        KeyInput::F(n) => eff is Continue && if 1 <= n <= 4 {
            post == (AppState {
                sort_by: (if n == 1 {
                    SortBy::ID
                } else if n == 2 {
                    SortBy::Title
                } else if n == 3 {
                    SortBy::Priority
                } else {
                    SortBy::Updated
                }),
                ..pre
            })
        } else {
            post == pre
        },
        _ => post == pre && eff is Continue,
    }
}

/// What a key does on the edit form.
pub open spec fn edit_key_rel(
    pre: AppState,
    post: AppState,
    eff: Effect,
    key: KeyInput,
    now: int,
) -> bool {
    match key {
        KeyInput::Enter => match pre.edit_focus {
            EditItem::Title => only_focus_changed(pre, post, EditItem::Description) && eff
                is Continue,
            EditItem::Description => only_focus_changed(pre, post, EditItem::Priority) && eff
                is Continue,
            EditItem::Priority => only_focus_changed(pre, post, EditItem::Status) && eff
                is Continue,
            EditItem::Status => !(eff is Quit) && commit_rel(pre, post, saved_of(eff), now),
            EditItem::Notes => post == pre && eff is Continue,
        },
        KeyInput::F(n) => if n == 5 {
            !(eff is Quit) && commit_rel(pre, post, saved_of(eff), now)
        } else {
            post == pre && eff is Continue
        },
        KeyInput::Tab => only_focus_changed(pre, post, next_focus(pre.edit_focus)) && eff
            is Continue,
        KeyInput::BackTab => only_focus_changed(pre, post, prev_focus(pre.edit_focus)) && eff
            is Continue,
        KeyInput::Char(c) => eff is Continue && match pre.edit_focus {
            EditItem::Title => {
                &&& (post == AppState { edit_ticket: post.edit_ticket, ..pre })
                &&& post.edit_ticket@ == (TicketView {
                    title: pre.edit_ticket@.title.push(c),
                    ..pre.edit_ticket@
                })
            },
            EditItem::Description => {
                &&& (post == AppState { edit_ticket: post.edit_ticket, ..pre })
                &&& post.edit_ticket@ == (TicketView {
                    description: pre.edit_ticket@.description.push(c),
                    ..pre.edit_ticket@
                })
            },
            _ => post == pre,
        },
        KeyInput::Backspace => eff is Continue && match pre.edit_focus {
            EditItem::Title => {
                &&& (post == AppState { edit_ticket: post.edit_ticket, ..pre })
                &&& post.edit_ticket@ == (TicketView {
                    title: (if pre.edit_ticket@.title.len() > 0 {
                        pre.edit_ticket@.title.drop_last()
                    } else {
                        pre.edit_ticket@.title
                    }),
                    ..pre.edit_ticket@
                })
            },
            EditItem::Description => {
                &&& (post == AppState { edit_ticket: post.edit_ticket, ..pre })
                &&& post.edit_ticket@ == (TicketView {
                    description: (if pre.edit_ticket@.description.len() > 0 {
                        pre.edit_ticket@.description.drop_last()
                    } else {
                        pre.edit_ticket@.description
                    }),
                    ..pre.edit_ticket@
                })
            },
            _ => post == pre,
        },
        KeyInput::Up => eff is Continue && match pre.edit_focus {
            EditItem::Priority => post == (AppState {
                edit_priority_state: (if pre.edit_priority_state == 0 {
                    2usize
                } else {
                    (pre.edit_priority_state - 1) as usize
                }),
                ..pre
            }),
            EditItem::Status => post == (AppState {
                edit_status_state: (if pre.edit_status_state == 0 {
                    1usize
                } else {
                    (pre.edit_status_state - 1) as usize
                }),
                ..pre
            }),
            _ => post == pre,
        },
        KeyInput::Down => eff is Continue && match pre.edit_focus {
            EditItem::Priority => post == (AppState {
                edit_priority_state: (if pre.edit_priority_state == 2 {
                    0usize
                } else {
                    (pre.edit_priority_state + 1) as usize
                }),
                ..pre
            }),
            EditItem::Status => post == (AppState {
                edit_status_state: (if pre.edit_status_state == 1 {
                    0usize
                } else {
                    (pre.edit_status_state + 1) as usize
                }),
                ..pre
            }),
            _ => post == pre,
        },
        KeyInput::Esc => cancel_rel(pre, post) && eff is Continue,
        _ => post == pre && eff is Continue,
    }
}

/// What a key does on the note form: typing edits the single pending
/// line; the first enter stages it (an empty line is refused); the second
/// enter commits it.
pub open spec fn note_key_rel(
    pre: AppState,
    post: AppState,
    eff: Effect,
    key: KeyInput,
    now: int,
) -> bool {
    match key {
        KeyInput::Enter => if pre.messages@.len() == 0 {
            if pre.input@.len() == 0 {
                post == pre && eff is Continue
            } else {
                &&& (post == AppState {
                    messages: post.messages,
                    prompt: post.prompt,
                    ..pre
                })
                &&& post.messages@.len() == 1
                &&& post.messages@[0]@ == pre.input@
                &&& post.prompt@ == "Hit Enter to save or Esc to cancel"@
                &&& eff is Continue
            }
        } else {
            !(eff is Quit) && note_commit_rel(pre, post, saved_of(eff), now)
        },
        KeyInput::Char(c) => eff is Continue && if pre.messages@.len() == 0 {
            &&& (post == AppState { input: post.input, ..pre })
            &&& post.input@ == pre.input@.push(c)
        } else {
            post == pre
        },
        KeyInput::Backspace => eff is Continue && if pre.messages@.len() == 0 {
            &&& (post == AppState { input: post.input, ..pre })
            &&& post.input@ == (if pre.input@.len() > 0 {
                pre.input@.drop_last()
            } else {
                pre.input@
            })
        } else {
            post == pre
        },
        KeyInput::Esc => cancel_rel(pre, post) && eff is Continue,
        _ => post == pre && eff is Continue,
    }
}

/// What a key does on the help screen.
pub open spec fn help_key_rel(pre: AppState, post: AppState, eff: Effect, key: KeyInput) -> bool {
    match key {
        KeyInput::Esc => post == (AppState { active_menu_item: MenuItem::Tickets, ..pre }) && eff
            is Continue,
        _ => post == pre && eff is Continue,
    }
}

/// The whole transition table: what one event does to the state, given
/// the active screen, and what the caller must then do. The confirmation
/// screen has no transitions of its own; a tick changes nothing.
pub open spec fn dispatch_rel(
    pre: AppState,
    post: AppState,
    eff: Effect,
    ev: Event,
    now: int,
) -> bool {
    match ev {
        Event::Tick => post == pre && eff is Continue,
        Event::Input(key) => match pre.active_menu_item {
            MenuItem::Tickets => tickets_key_rel(pre, post, eff, key, now),
            MenuItem::EditForm => edit_key_rel(pre, post, eff, key, now),
            MenuItem::NoteForm => note_key_rel(pre, post, eff, key, now),
            MenuItem::ConfirmForm => post == pre && eff is Continue,
            MenuItem::Help => help_key_rel(pre, post, eff, key),
        },
    }
}

/// Routes one event to its handler, per [`dispatch_rel`], with `now` the
/// timestamp any committed change is stamped with.
pub fn dispatch(app: &mut AppState, ev: Event, now: i64) -> (eff: Effect)
    requires
        old(app).wf(),
        old(app).edit_is_new ==> max_id_of(
            old(app).open_tickets.deep_view() + old(app).closed_tickets.deep_view(),
        ) < i32::MAX,
    ensures
        final(app).wf(),
        dispatch_rel(*old(app), *final(app), eff, ev, now as int),
{
    let key = match ev {
        Event::Tick => {
            return Effect::Continue;
        },
        Event::Input(k) => k,
    };
    match app.active_menu_item {
        MenuItem::Tickets => match key {
            KeyInput::Char(c) => {
                if c == 'q' {
                    Effect::Quit
                } else if c == 'h' {
                    app.active_menu_item = MenuItem::Help;
                    Effect::Continue
                } else if c == 'a' {
                    init_add_ticket(app);
                    Effect::Continue
                } else if c == 'e' {
                    edit_ticket_at_index(app);
                    Effect::Continue
                } else if c == 'v' {
                    app.ticket_view_mode = match app.ticket_view_mode {
                        TicketViewMode::Open => TicketViewMode::Closed,
                        TicketViewMode::Closed => TicketViewMode::Open,
                    };
                    let len = match app.ticket_view_mode {
                        TicketViewMode::Open => app.open_tickets.len(),
                        TicketViewMode::Closed => app.closed_tickets.len(),
                    };
                    app.ticket_list_state = if len == 0 {
                        None
                    } else {
                        Some(0)
                    };
                    Effect::Continue
                } else if c == 'n' {
                    init_add_note(app);
                    Effect::Continue
                } else if c == 't' {
                    match toggle_ticket_status(app, now) {
                        Some(v) => Effect::Save(v),
                        None => Effect::Continue,
                    }
                } else {
                    Effect::Continue
                }
            },
            KeyInput::Ctrl(c) => {
                if c == 'k' {
                    match remove_ticket_at_index(app) {
                        Some(v) => Effect::Save(v),
                        None => Effect::Continue,
                    }
                } else {
                    Effect::Continue
                }
            },
            KeyInput::PageDown => {
                if app.scroll < u16::MAX {
                    app.scroll = app.scroll + 1;
                }
                Effect::Continue
            },
            KeyInput::PageUp => {
                if app.scroll > 0 {
                    app.scroll = app.scroll - 1;
                }
                Effect::Continue
            },
            KeyInput::Down => {
                if let Some(i) = app.ticket_list_state {
                    app.scroll = 0;
                    let len = match app.ticket_view_mode {
                        TicketViewMode::Open => app.open_tickets.len(),
                        TicketViewMode::Closed => app.closed_tickets.len(),
                    };
                    app.ticket_list_state = if i + 1 < len {
                        Some(i + 1)
                    } else {
                        Some(0)
                    };
                }
                Effect::Continue
            },
            KeyInput::Up => {
                if let Some(i) = app.ticket_list_state {
                    app.scroll = 0;
                    let len = match app.ticket_view_mode {
                        TicketViewMode::Open => app.open_tickets.len(),
                        TicketViewMode::Closed => app.closed_tickets.len(),
                    };
                    app.ticket_list_state = if i > 0 {
                        Some(i - 1)
                    } else {
                        Some(len - 1)
                    };
                }
                Effect::Continue
            },
            KeyInput::F(n) => {
                if n == 1 {
                    app.sort_by = SortBy::ID;
                } else if n == 2 {
                    app.sort_by = SortBy::Title;
                } else if n == 3 {
                    app.sort_by = SortBy::Priority;
                } else if n == 4 {
                    app.sort_by = SortBy::Updated;
                }
                Effect::Continue
            },
            _ => Effect::Continue,
        },
        MenuItem::EditForm => match key {
            KeyInput::Enter => match app.edit_focus {
                EditItem::Title => {
                    app.edit_focus = EditItem::Description;
                    Effect::Continue
                },
                EditItem::Description => {
                    app.edit_focus = EditItem::Priority;
                    Effect::Continue
                },
                EditItem::Priority => {
                    app.edit_focus = EditItem::Status;
                    Effect::Continue
                },
                EditItem::Status => match add_ticket(app, now) {
                    Some(v) => Effect::Save(v),
                    None => Effect::Continue,
                },
                EditItem::Notes => Effect::Continue,
            },
            KeyInput::F(n) => {
                if n == 5 {
                    match add_ticket(app, now) {
                        Some(v) => Effect::Save(v),
                        None => Effect::Continue,
                    }
                } else {
                    Effect::Continue
                }
            },
            KeyInput::Tab => {
                app.edit_focus = match app.edit_focus {
                    EditItem::Title => EditItem::Description,
                    EditItem::Description => EditItem::Priority,
                    EditItem::Priority => EditItem::Status,
                    EditItem::Status => EditItem::Notes,
                    EditItem::Notes => EditItem::Title,
                };
                Effect::Continue
            },
            KeyInput::BackTab => {
                app.edit_focus = match app.edit_focus {
                    EditItem::Title => EditItem::Notes,
                    EditItem::Description => EditItem::Title,
                    EditItem::Priority => EditItem::Description,
                    EditItem::Status => EditItem::Priority,
                    EditItem::Notes => EditItem::Status,
                };
                Effect::Continue
            },
            KeyInput::Char(c) => {
                match app.edit_focus {
                    EditItem::Title => {
                        crate::text::push_char(&mut app.edit_ticket.title, c);
                    },
                    EditItem::Description => {
                        crate::text::push_char(&mut app.edit_ticket.description, c);
                    },
                    _ => {},
                }
                Effect::Continue
            },
            KeyInput::Backspace => {
                match app.edit_focus {
                    EditItem::Title => {
                        let _ = crate::text::pop_char(&mut app.edit_ticket.title);
                    },
                    EditItem::Description => {
                        let _ = crate::text::pop_char(&mut app.edit_ticket.description);
                    },
                    _ => {},
                }
                Effect::Continue
            },
            KeyInput::Up => {
                match app.edit_focus {
                    EditItem::Priority => {
                        app.edit_priority_state = if app.edit_priority_state == 0 {
                            2
                        } else {
                            app.edit_priority_state - 1
                        };
                    },
                    EditItem::Status => {
                        app.edit_status_state = if app.edit_status_state == 0 {
                            1
                        } else {
                            app.edit_status_state - 1
                        };
                    },
                    _ => {},
                }
                Effect::Continue
            },
            KeyInput::Down => {
                match app.edit_focus {
                    EditItem::Priority => {
                        app.edit_priority_state = if app.edit_priority_state == 2 {
                            0
                        } else {
                            app.edit_priority_state + 1
                        };
                    },
                    EditItem::Status => {
                        app.edit_status_state = if app.edit_status_state == 1 {
                            0
                        } else {
                            app.edit_status_state + 1
                        };
                    },
                    _ => {},
                }
                Effect::Continue
            },
            KeyInput::Esc => {
                app.active_menu_item = MenuItem::Tickets;
                app.input = String::new();
                app.messages = Vec::new();
                Effect::Continue
            },
            _ => Effect::Continue,
        },
        MenuItem::NoteForm => match key {
            KeyInput::Enter => {
                if app.messages.len() == 0 {
                    let empty = String::new();
                    proof {
                        if app.input@.len() == 0 {
                            assert(app.input@ =~= Seq::<char>::empty());
                        }
                    }
                    if app.input == empty {
                        Effect::Continue
                    } else {
                        let staged = app.input.clone();
                        app.messages.push(staged);
                        app.prompt = "Hit Enter to save or Esc to cancel".to_owned();
                        Effect::Continue
                    }
                } else {
                    match add_note(app, now) {
                        Some(v) => Effect::Save(v),
                        None => Effect::Continue,
                    }
                }
            },
            KeyInput::Char(c) => {
                if app.messages.len() == 0 {
                    crate::text::push_char(&mut app.input, c);
                }
                Effect::Continue
            },
            KeyInput::Backspace => {
                if app.messages.len() == 0 {
                    let _ = crate::text::pop_char(&mut app.input);
                }
                Effect::Continue
            },
            KeyInput::Esc => {
                app.active_menu_item = MenuItem::Tickets;
                app.input = String::new();
                app.messages = Vec::new();
                Effect::Continue
            },
            _ => Effect::Continue,
        },
        MenuItem::ConfirmForm => Effect::Continue,
        MenuItem::Help => match key {
            KeyInput::Esc => {
                app.active_menu_item = MenuItem::Tickets;
                Effect::Continue
            },
            _ => Effect::Continue,
        },
    }
}

/// Relies on chrono::Utc::now: a reading of the wall clock, as seconds
/// since the Unix epoch. Nothing is promised of a clock reading.
#[verifier::external_body]
fn now_seconds() -> i64 {
    chrono::Utc::now().timestamp()
}

/// Routes one event as [`dispatch`] does, stamping any committed change
/// with the wall clock's current reading. Since the clock's value cannot
/// be known in advance, the contract promises the transition for some
/// timestamp rather than a particular one.
pub fn dispatch_event(app: &mut AppState, ev: Event) -> (eff: Effect)
    requires
        old(app).wf(),
        old(app).edit_is_new ==> max_id_of(
            old(app).open_tickets.deep_view() + old(app).closed_tickets.deep_view(),
        ) < i32::MAX,
    ensures
        final(app).wf(),
        exists|now: int| dispatch_rel(*old(app), *final(app), eff, ev, now),
{
    let now = now_seconds();
    let eff = dispatch(app, ev, now);
    proof {
        assert(dispatch_rel(*old(app), *app, eff, ev, now as int));
    }
    eff
}

/// Shows the storage failure banner. The caller uses this after a save
/// could not be written, once it has restored the state from before the
/// attempted change; nothing but the banner is touched.
pub fn storage_failed(app: &mut AppState, err: crate::store::Error)
    ensures
        (*final(app) == AppState { prompt: final(app).prompt, ..*old(app) }),
        err is StorageUnavailable ==> final(app).prompt@ == "Storage unavailable"@,
        err is CorruptData ==> final(app).prompt@ == "Ticket data is corrupt"@,
        final(app).wf() <== old(app).wf(),
{
    app.prompt = err.message().to_owned();
}

/// Law: opening an edit session on the highlighted ticket and committing
/// it with nothing changed in between reproduces the ticket in its place,
/// except that its update time becomes the commit's timestamp, and the
/// collection is handed back to be persisted. It holds of tickets whose
/// priority is one of the three named levels; the form's choice list
/// normalises any other spelling to low.
pub proof fn lemma_commit_round_trip(
    s0: AppState,
    s1: AppState,
    s2: AppState,
    saved: Option<Vec<Tickets>>,
    i: usize,
    now: int,
)
    requires
        s0.wf(),
        s0.ticket_list_state == Some(i),
        begin_edit_rel(s0, s1),
        commit_rel(s1, s2, saved, now),
        s0.active()[i as int].priority == "High"@ || s0.active()[i as int].priority == "Medium"@
            || s0.active()[i as int].priority == "Low"@,
    ensures
        s2.active() == s0.active().update(
            i as int,
            (TicketView { updated_at: now, ..s0.active()[i as int] }),
        ),
        s2.inactive() == s0.inactive(),
        s2.ticket_list_state == Some(i),
        saved is Some,
        now >= s0.active()[i as int].updated_at ==> s2.active()[i as int].updated_at
            >= s0.active()[i as int].updated_at,
{
    let t = s0.active()[i as int];
    let c = committed_ticket(s1, now);
    assert(c.priority == t.priority);
    assert(c.status == t.status);
    assert(t.status == mode_status(s0.ticket_view_mode));
    assert(c == (TicketView { updated_at: now, ..t }));
}

/// Law: committing an edit session whose status choice moved the ticket
/// from open to closed takes it out of the open partition and appends it,
/// with the session's fields applied, to the closed one — no copy is left
/// behind and none is made twice.
pub proof fn lemma_status_move(
    s0: AppState,
    s1: AppState,
    s2: AppState,
    saved: Option<Vec<Tickets>>,
    i: usize,
    now: int,
)
    requires
        s0.wf(),
        s0.ticket_view_mode is Open,
        s0.ticket_list_state == Some(i),
        begin_edit_rel(s0, s1),
        commit_rel(AppState { edit_status_state: 1, ..s1 }, s2, saved, now),
    ensures
        s2.open_tickets.deep_view() == s0.open_tickets.deep_view().remove(i as int),
        s2.closed_tickets.deep_view() == s0.closed_tickets.deep_view().push(
            committed_ticket(AppState { edit_status_state: 1, ..s1 }, now),
        ),
        committed_ticket(AppState { edit_status_state: 1, ..s1 }, now).status is Closed,
        s2.open_tickets.deep_view().len() + 1 == s0.open_tickets.deep_view().len(),
        s2.closed_tickets.deep_view().len() == s0.closed_tickets.deep_view().len() + 1,
        saved is Some,
{
    let s1b = AppState { edit_status_state: 1, ..s1 };
    let c = committed_ticket(s1b, now);
    assert(c.status is Closed);
    assert(c.status != mode_status(s1b.ticket_view_mode));
}

/// A fresh id stays fresh wherever the new ticket is placed.
proof fn lemma_insert_fresh_preserves_unique(s: Seq<TicketView>, t: TicketView, k: int)
    requires
        crate::store::unique_ids(s),
        0 <= k <= s.len(),
        forall|i: int| 0 <= i < s.len() ==> (#[trigger] s[i]).id != t.id,
    ensures
        crate::store::unique_ids(s.insert(k, t)),
{
    let r = s.insert(k, t);
    assert forall|j: int, l: int| 0 <= j < l < r.len() implies r[j].id != r[l].id by {
        if j < k {
            assert(r[j] == s[j]);
        } else if j == k {
            assert(r[j] == t);
        } else {
            assert(r[j] == s[j - 1]);
        }
        if l < k {
            assert(r[l] == s[l]);
        } else if l == k {
            assert(r[l] == t);
        } else {
            assert(r[l] == s[l - 1]);
        }
    };
}

/// Law: committing a new ticket keeps every id in the store distinct —
/// the assigned id is strictly greater than every id that was present, so
/// no two tickets of the store ever share one.
pub proof fn lemma_create_keeps_ids_unique(
    pre: AppState,
    post: AppState,
    saved: Option<Vec<Tickets>>,
    now: int,
)
    requires
        pre.edit_is_new,
        commit_rel(pre, post, saved, now),
        crate::store::unique_ids(pre.open_tickets.deep_view() + pre.closed_tickets.deep_view()),
    ensures
        crate::store::unique_ids(post.open_tickets.deep_view() + post.closed_tickets.deep_view()),
{
    let all = pre.open_tickets.deep_view() + pre.closed_tickets.deep_view();
    let t = TicketView { id: next_id_of(all), created_at: now, ..committed_ticket(pre, now) };
    crate::store::lemma_next_id_fresh(all);
    if t.status is Open {
        assert(post.open_tickets.deep_view() + post.closed_tickets.deep_view() =~= all.insert(
            pre.open_tickets.deep_view().len() as int,
            t,
        ));
        lemma_insert_fresh_preserves_unique(all, t, pre.open_tickets.deep_view().len() as int);
    } else {
        assert(post.open_tickets.deep_view() + post.closed_tickets.deep_view() =~= all.insert(
            all.len() as int,
            t,
        ));
        lemma_insert_fresh_preserves_unique(all, t, all.len() as int);
    }
}

/// The full collection in storage order: the open partition followed by
/// the closed one, ready to be persisted.
pub fn update_db(app: &AppState) -> (all: Vec<Tickets>)
    ensures
        all.deep_view() == app.open_tickets.deep_view() + app.closed_tickets.deep_view(),
{
    let mut a = crate::ticket::clone_tickets(&app.open_tickets);
    let mut b = crate::ticket::clone_tickets(&app.closed_tickets);
    a.append(&mut b);
    proof {
        assert(a.deep_view() =~= app.open_tickets.deep_view()
            + app.closed_tickets.deep_view());
    }
    a
}

} // verus!

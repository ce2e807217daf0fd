//! The ticket data model: a ticket with free-text fields, a status, a
//! priority and an append-only list of notes, together with the ghost views
//! that the contracts of the rest of the crate are stated over.

use vstd::prelude::*;

verus! {

/// Whether a ticket is still being worked on or done.
#[derive(Clone, Copy, Debug, PartialEq, Eq, Structural)]
pub enum TicketStatus {
    Open,
    Closed,
}

impl TicketStatus {
    /// The display name of the status.
    pub fn to_string(&self) -> (r: &str)
        ensures
            *self is Open ==> r@ == "Open"@,
            *self is Closed ==> r@ == "Closed"@,
    {
        match self {
            TicketStatus::Open => "Open",
            TicketStatus::Closed => "Closed",
        }
    }
}

/// The mathematical value of a [`Note`]: its text as a sequence of
/// characters and its two timestamps as unbounded integers.
pub struct NoteView {
    pub text: Seq<char>,
    pub created_at: int,
    pub updated_at: int,
}

/// One entry of a ticket's log: free text plus the moment it was written.
/// Notes are only ever appended, never edited or removed.
#[derive(Debug)]
pub struct Note {
    pub text: String,
    /// Seconds since the Unix epoch.
    pub created_at: i64,
    /// Seconds since the Unix epoch.
    pub updated_at: i64,
}

impl Note {
    pub fn new(text: String, created_at: i64, updated_at: i64) -> (r: Note)
        ensures
            r@ == (NoteView { text: text@, created_at: created_at as int, updated_at: updated_at as int }),
    {
        Note { text, created_at, updated_at }
    }
}

impl View for Note {
    type V = NoteView;

    open spec fn view(&self) -> NoteView {
        NoteView {
            text: self.text@,
            created_at: self.created_at as int,
            updated_at: self.updated_at as int,
        }
    }
}

impl DeepView for Note {
    type V = NoteView;

    open spec fn deep_view(&self) -> NoteView {
        self.view()
    }
}

impl Clone for Note {
    fn clone(&self) -> (r: Self)
        ensures
            r@ == self@,
    {
        Note { text: self.text.clone(), created_at: self.created_at, updated_at: self.updated_at }
    }
}

/// The mathematical value of a [`Tickets`] record. A missing note list and
/// an empty one are both seen as the empty sequence.
pub struct TicketView {
    pub id: int,
    pub title: Seq<char>,
    pub description: Seq<char>,
    pub notes: Seq<NoteView>,
    pub status: TicketStatus,
    pub priority: Seq<char>,
    pub created_at: int,
    pub updated_at: int,
}

/// One tracked work item.
#[derive(Debug)]
pub struct Tickets {
    pub id: i32,
    pub title: String,
    pub description: String,
    pub notes: Option<Vec<Note>>,
    pub status: TicketStatus,
    pub priority: String,
    /// Seconds since the Unix epoch.
    pub created_at: i64,
    /// Seconds since the Unix epoch.
    pub updated_at: i64,
}

impl View for Tickets {
    type V = TicketView;

    open spec fn view(&self) -> TicketView {
        TicketView {
            id: self.id as int,
            title: self.title@,
            description: self.description@,
            notes: match self.notes {
                Some(v) => v.deep_view(),
                None => Seq::empty(),
            },
            status: self.status,
            priority: self.priority@,
            created_at: self.created_at as int,
            updated_at: self.updated_at as int,
        }
    }
}

impl DeepView for Tickets {
    type V = TicketView;

    open spec fn deep_view(&self) -> TicketView {
        self.view()
    }
}

impl Clone for Tickets {
    fn clone(&self) -> (r: Self)
        ensures
            r@ == self@,
    {
        let notes: Option<Vec<Note>> = match &self.notes {
            Some(v) => Some(clone_notes(v)),
            None => None,
        };
        let r = Tickets {
            id: self.id,
            title: self.title.clone(),
            description: self.description.clone(),
            notes,
            status: self.status,
            priority: self.priority.clone(),
            created_at: self.created_at,
            updated_at: self.updated_at,
        };
        proof {
            assert(r@.notes =~= self@.notes);
        }
        r
    }
}

/// Clones a note list, keeping every note's view.
fn clone_notes(v: &Vec<Note>) -> (r: Vec<Note>)
    ensures
        r.deep_view() == v.deep_view(),
{
    let mut r: Vec<Note> = Vec::new();
    let mut i: usize = 0;
    while i < v.len()
        invariant
            i <= v.len(),
            r@.len() == i,
            forall|j: int| 0 <= j < i ==> r@[j]@ == #[trigger] v@[j]@,
        decreases v.len() - i,
    {
        let n = v[i].clone();
        r.push(n);
        i += 1;
    }
    proof {
        assert(r.deep_view() =~= v.deep_view());
    }
    r
}

/// Clones a ticket list, keeping every ticket's view.
pub(crate) fn clone_tickets(v: &Vec<Tickets>) -> (r: Vec<Tickets>)
    ensures
        r.deep_view() == v.deep_view(),
{
    let mut r: Vec<Tickets> = Vec::new();
    let mut i: usize = 0;
    while i < v.len()
        invariant
            i <= v.len(),
            r@.len() == i,
            forall|j: int| 0 <= j < i ==> r@[j]@ == #[trigger] v@[j]@,
        decreases v.len() - i,
    {
        let t = v[i].clone();
        r.push(t);
        i += 1;
    }
    proof {
        assert(r.deep_view() =~= v.deep_view());
    }
    r
}

impl Tickets {
    pub fn new(
        id: i32,
        title: String,
        description: String,
        status: TicketStatus,
        priority: String,
        created_at: i64,
        updated_at: i64,
    ) -> (r: Tickets)
        ensures
            r@ == (TicketView {
                id: id as int,
                title: title@,
                description: description@,
                notes: Seq::empty(),
                status,
                priority: priority@,
                created_at: created_at as int,
                updated_at: updated_at as int,
            }),
    {
        Tickets { id, title, description, notes: None, status, priority, created_at, updated_at }
    }

    /// The id one past this ticket's own.
    pub fn next_id(&self) -> (r: i32)
        requires
            self.id < i32::MAX,
        ensures
            r == self.id + 1,
    {
        self.id + 1
    }

    /// The id one before this ticket's own.
    pub fn prev_id(&self) -> (r: i32)
        requires
            self.id > i32::MIN,
        ensures
            r == self.id - 1,
    {
        self.id - 1
    }

    /// The view of the blank ticket that [`Tickets::default`] returns.
    pub open spec fn default_view() -> TicketView {
        TicketView {
            id: 0,
            title: Seq::empty(),
            description: Seq::empty(),
            notes: Seq::empty(),
            status: TicketStatus::Open,
            priority: Seq::empty(),
            created_at: 0,
            updated_at: 0,
        }
    }

    /// A blank open ticket with id 0, used as the seed record of a fresh
    /// store and as the resting value of an edit session.
    pub fn default() -> (r: Tickets)
        ensures
            r@ == Tickets::default_view(),
    {
        Tickets {
            id: 0,
            title: String::new(),
            description: String::new(),
            notes: None,
            status: TicketStatus::Open,
            priority: String::new(),
            created_at: 0,
            updated_at: 0,
        }
    }

    /// An example open ticket with id 0 and low priority, handy as a first
    /// record when showing the tracker to someone.
    pub fn sample() -> (r: Tickets)
        ensures
            r@ == (TicketView {
                id: 0,
                title: "Sample Ticket"@,
                description: "This is a sample description"@,
                notes: Seq::empty(),
                status: TicketStatus::Open,
                priority: "Low"@,
                created_at: 0,
                updated_at: 0,
            }),
    {
        Tickets {
            id: 0,
            title: "Sample Ticket".to_owned(),
            description: "This is a sample description".to_owned(),
            notes: None,
            status: TicketStatus::Open,
            priority: "Low".to_owned(),
            created_at: 0,
            updated_at: 0,
        }
    }
}

/// How urgent a ticket is. Priorities are carried on the ticket as their
/// display strings; this enum gives those strings one authoritative home.
#[derive(Clone, Copy, Debug, PartialEq, Eq, Structural)]
pub enum TicketPriority {
    Low,
    Medium,
    High,
}

impl TicketPriority {
    /// The display name of the priority.
    pub fn get_priority(&self) -> (r: String)
        ensures
            *self is Low ==> r@ == "Low"@,
            *self is Medium ==> r@ == "Medium"@,
            *self is High ==> r@ == "High"@,
    {
        match self {
            TicketPriority::Low => "Low".to_owned(),
            TicketPriority::Medium => "Medium".to_owned(),
            TicketPriority::High => "High".to_owned(),
        }
    }

    /// The display name of the priority with the given numeric level
    /// (1 low, 2 medium, 3 high); empty for any other number.
    pub fn int_to_string(priority: i32) -> (r: String)
        ensures
            priority == 1 ==> r@ == "Low"@,
            priority == 2 ==> r@ == "Medium"@,
            priority == 3 ==> r@ == "High"@,
            !(1 <= priority <= 3) ==> r@ == Seq::<char>::empty(),
    {
        match priority {
            1 => "Low".to_owned(),
            2 => "Medium".to_owned(),
            3 => "High".to_owned(),
            _ => String::new(),
        }
    }
}

/// What a forwarded request asks the remote collection to do.
#[derive(Clone, Copy, Debug, PartialEq, Eq, Structural)]
pub enum TicketAction {
    Create,
    Update,
    Delete,
    UpdateDb,
}

impl TicketAction {
    /// The wire name of the action.
    pub fn to_string(&self) -> (r: &str)
        ensures
            *self is Create ==> r@ == "Create"@,
            *self is Update ==> r@ == "Update"@,
            *self is Delete ==> r@ == "Delete"@,
            *self is UpdateDb ==> r@ == "UpdateDb"@,
    {
        match self {
            TicketAction::Create => "Create",
            TicketAction::Update => "Update",
            TicketAction::Delete => "Delete",
            TicketAction::UpdateDb => "UpdateDb",
        }
    }
}

/// A single frame of the (stubbed) remote-sync channel: an action and the
/// ticket it concerns.
#[derive(Debug)]
pub struct Request {
    pub action: TicketAction,
    pub ticket: Tickets,
}

} // verus!

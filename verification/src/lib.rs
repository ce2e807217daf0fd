//! A keyboard-driven ticket tracker: tickets with status, priority and an
//! append-only note log, kept in two partitions (open and closed), edited
//! through a screen state machine and persisted as one JSON document.
//!
//! This crate holds the verified core: the data model, the partitioning and
//! id-allocation rules, the selection tracker, the edit session and the key
//! dispatcher. Terminal I/O, rendering and the JSON file itself live in the
//! surrounding application.

pub mod app;
pub mod sort;
pub mod store;
mod text;
pub mod ticket;

pub use app::AppState;
pub use app::EditItem;
pub use app::Effect;
pub use app::Event;
pub use app::KeyInput;
pub use app::MenuItem;
pub use app::SortBy;
pub use app::TicketViewMode;
pub use store::Error;

pub use ticket::Note;
pub use ticket::NoteView;
pub use ticket::Request;
pub use ticket::TicketAction;
pub use ticket::TicketPriority;
pub use ticket::TicketStatus;
pub use ticket::TicketView;
pub use ticket::Tickets;

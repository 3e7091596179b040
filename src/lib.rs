//! Change notifications for a key/value cache: the closed set of events that a
//! cache engine emits whenever its contents change.

pub mod cache;
pub mod event;

pub use cache::Key;
pub use event::{Event, EventData};

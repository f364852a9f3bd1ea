//! What a parent window does with the notifications of its controls.

pub mod header_events;
pub mod list_view_events;

pub use header_events::HeaderEvents;
pub use list_view_events::ListViewEvents;

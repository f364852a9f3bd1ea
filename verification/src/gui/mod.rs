//! Native controls and the notifications they send.
//!
//! A control object holds the handle of its window and what identifies it. An
//! operation builds the message it stands for, hands it to the `send` closure
//! together with the handle of the window it is meant for, and makes its
//! result from the answer.

pub mod base;
pub mod events;
pub mod layout_arranger;
pub mod native_controls;
pub mod privs;

pub use base::Base;
pub use events::HeaderEvents;
pub use events::ListViewEvents;
pub use layout_arranger::Horz;
pub use layout_arranger::Vert;
pub use native_controls::Header;
pub use native_controls::HeaderItems;
pub use native_controls::HeaderOpts;
pub use native_controls::ListViewColumn;
pub use native_controls::TreeViewChildItemIter;
pub use native_controls::TreeViewItem;
pub use native_controls::TreeViewItemIter;

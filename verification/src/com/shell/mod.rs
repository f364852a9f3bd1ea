//! Handles to the objects of the taskbar.

pub mod itaskbarlist;
pub mod itaskbarlist2;

pub use itaskbarlist::ITaskbarList;
pub use itaskbarlist::ITaskbarListVtbl;
pub use itaskbarlist2::ITaskbarList2;
pub use itaskbarlist2::ITaskbarList2Vtbl;

//! Handles to the objects of the shell.

pub mod com_interfaces;

pub use crate::com::shell::ITaskbarList;
pub use crate::com::shell::ITaskbarList2;
pub use crate::com::shell::ITaskbarList2Vtbl;
pub use crate::com::shell::ITaskbarListVtbl;
pub use com_interfaces::ienumshellitems::shell_IEnumShellItems;
pub use com_interfaces::ienumshellitems::EnumShellItemsIter;
pub use com_interfaces::ienumshellitems::IEnumShellItems;
pub use com_interfaces::ienumshellitems::IEnumShellItemsVT;
pub use com_interfaces::ishellitem::IShellItem;

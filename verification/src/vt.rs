//! The dispatch tables, under one path.

pub use crate::com::iunknown::IUnknownVT;
pub use crate::com::iunknown::IUnknownVtbl;
pub use crate::com::shell::ITaskbarList2Vtbl;
pub use crate::com::shell::ITaskbarListVtbl;
pub use crate::shell::com_interfaces::ienumshellitems::IEnumShellItemsVT;

//! The traits that give handles their operations, under one path.

pub use crate::com::iid::ComInterface;
pub use crate::ole::decl::ole_IUnknown;
pub use crate::shell::com_interfaces::ienumshellitems::shell_IEnumShellItems;

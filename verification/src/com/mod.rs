//! Reference-counted handles to foreign objects that are reached through a
//! dispatch table.

pub mod iid;
pub mod iunknown;
pub mod shell;

pub use iid::ComInterface;
pub use iid::IID;
pub use iunknown::IUnknown;
pub use iunknown::IUnknownVT;
pub use iunknown::IUnknownVtbl;

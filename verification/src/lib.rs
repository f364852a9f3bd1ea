//! Ownership-tracked handles, typed constants and message descriptors for the
//! Windows API.
//!
//! Nothing in this crate touches foreign memory. A handle holds the address of
//! a foreign object as a plain number, and every operation that has to reach
//! the foreign side takes the call as a closure: the operation decides whether
//! to call, fixes what is handed over, and says what it makes of the answer.
//! The contract of an operation names the call it makes and relates its result
//! to what the closure promises for that call. For a handle that holds no
//! object the contract asks nothing of the closure, so no call can be made.

#![allow(non_snake_case, non_camel_case_types, non_upper_case_globals)]

pub mod co;
pub mod com;
pub mod decl;
pub mod ffi_types;
pub mod gui;
pub mod handles;
pub mod msg;
pub mod ole;
pub mod prelude;
pub mod shell;
pub mod structs;
pub mod vt;

pub use com::ComInterface;
pub use com::IUnknown;
pub use com::IUnknownVtbl;
pub use com::IID;
pub use decl::SysResult;
pub use handles::HTREEITEM;
pub use handles::HWND;
pub use shell::IEnumShellItems;
pub use shell::IShellItem;
pub use structs::LVCOLUMN;
pub use structs::NMCUSTOMDRAW;
pub use structs::NMHDR;
pub use structs::NMITEMACTIVATE;
pub use structs::NMLVFINDITEM;
pub use structs::POINT;
pub use structs::RECT;
pub use structs::SIZE;
pub use structs::TVINSERTSTRUCT;
pub use structs::TVITEMEX;

use vstd::prelude::*;

verus! {

/// Style of a header control.
#[derive(Clone, Copy, Debug, PartialEq, Eq, Structural)]
pub struct HDS(pub u32);

impl HDS {
    pub const HORZ: u32 = 0x0000;
    pub const BUTTONS: u32 = 0x0002;
    pub const HOTTRACK: u32 = 0x0004;
    pub const HIDDEN: u32 = 0x0008;
    pub const DRAGDROP: u32 = 0x0040;
    pub const FULLDRAG: u32 = 0x0080;
    pub const FILTERBAR: u32 = 0x0100;
    pub const FLAT: u32 = 0x0200;
    pub const CHECKBOXES: u32 = 0x0400;
    pub const NOSIZING: u32 = 0x0800;
    pub const OVERFLOW: u32 = 0x1000;
}

/// A COM status code. Zero is success, one is the sentinel of an operation
/// that succeeded and has nothing to hand out; every other value the library
/// sees names a failure.
#[derive(Clone, Copy, Debug, PartialEq, Eq, Structural)]
pub struct HRESULT(pub u32);

impl HRESULT {
    /// The operation succeeded.
    pub const S_OK: u32 = 0;
    /// The operation succeeded with nothing to report: no item was found.
    pub const S_FALSE: u32 = 1;
}

} // verus!

use vstd::prelude::*;

verus! {

/// Code of a notification that a control sends to its parent.
#[derive(Clone, Copy, Debug, PartialEq, Eq, Structural)]
pub struct NM(pub i32);

impl NM {
    pub const OUTOFMEMORY: i32 = -1;
    pub const CLICK: i32 = -2;
    pub const DBLCLK: i32 = -3;
    pub const RETURN: i32 = -4;
    pub const RCLICK: i32 = -5;
    pub const RDBLCLK: i32 = -6;
    pub const SETFOCUS: i32 = -7;
    pub const KILLFOCUS: i32 = -8;
    pub const CUSTOMDRAW: i32 = -12;
    pub const HOVER: i32 = -13;
    pub const RELEASEDCAPTURE: i32 = -16;
    pub const LVN_ODFINDITEM: i32 = -179;
}

} // verus!

use vstd::prelude::*;

verus! {

/// Window style.
#[derive(Clone, Copy, Debug, PartialEq, Eq, Structural)]
pub struct WS(pub u32);

impl WS {
    pub const OVERLAPPED: u32 = 0x0000_0000;
    pub const TABSTOP: u32 = 0x0001_0000;
    pub const GROUP: u32 = 0x0002_0000;
    pub const BORDER: u32 = 0x0080_0000;
    pub const CLIPCHILDREN: u32 = 0x0200_0000;
    pub const CLIPSIBLINGS: u32 = 0x0400_0000;
    pub const DISABLED: u32 = 0x0800_0000;
    pub const VISIBLE: u32 = 0x1000_0000;
    pub const CHILD: u32 = 0x4000_0000;
    pub const POPUP: u32 = 0x8000_0000;
}

/// Extended window style.
#[derive(Clone, Copy, Debug, PartialEq, Eq, Structural)]
pub struct WS_EX(pub u32);

impl WS_EX {
    pub const NoValue: u32 = 0x0000_0000;
    pub const DLGMODALFRAME: u32 = 0x0000_0001;
    pub const TOPMOST: u32 = 0x0000_0008;
    pub const ACCEPTFILES: u32 = 0x0000_0010;
    pub const TRANSPARENT: u32 = 0x0000_0020;
    pub const CLIENTEDGE: u32 = 0x0000_0200;
    pub const CONTROLPARENT: u32 = 0x0001_0000;
}

} // verus!

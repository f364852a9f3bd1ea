use vstd::prelude::*;

verus! {

/// Access right that every kind of object knows.
#[derive(Clone, Copy, Debug, PartialEq, Eq, Structural)]
pub struct ACCESS_RIGHTS(pub u32);

impl ACCESS_RIGHTS {
    pub const DELETE: u32 = 0x0001_0000;
    pub const READ_CONTROL: u32 = 0x0002_0000;
    pub const WRITE_DAC: u32 = 0x0004_0000;
    pub const WRITE_OWNER: u32 = 0x0008_0000;
    pub const SYNCHRONIZE: u32 = 0x0010_0000;
}

} // verus!

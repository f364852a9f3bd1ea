use vstd::prelude::*;

verus! {

/// Output quality of a logical font.
#[derive(Clone, Copy, Debug, PartialEq, Eq, Structural)]
pub struct QUALITY(pub u8);

impl QUALITY {
    pub const DEFAULT: u8 = 0;
    pub const DRAFT: u8 = 1;
    pub const PROOF: u8 = 2;
    pub const NONANTIALIASED: u8 = 3;
    pub const ANTIALIASED: u8 = 4;
    pub const CLEARTYPE: u8 = 5;
    pub const CLEARTYPE_NATURAL: u8 = 6;
}

/// Kind of message looked for in the queue.
#[derive(Clone, Copy, Debug, PartialEq, Eq, Structural)]
pub struct QS(pub u32);

impl QS {
    pub const KEY: u32 = 0x0001;
    pub const MOUSEMOVE: u32 = 0x0002;
    pub const MOUSEBUTTON: u32 = 0x0004;
    pub const POSTMESSAGE: u32 = 0x0008;
    pub const TIMER: u32 = 0x0010;
    pub const PAINT: u32 = 0x0020;
    pub const SENDMESSAGE: u32 = 0x0040;
    pub const HOTKEY: u32 = 0x0080;
    pub const ALLPOSTMESSAGE: u32 = 0x0100;
    pub const RAWINPUT: u32 = 0x0400;
    pub const TOUCH: u32 = 0x0800;
    pub const POINTER: u32 = 0x1000;
    pub const MOUSE: u32 = Self::MOUSEMOVE | Self::MOUSEBUTTON;
    pub const INPUT: u32 = Self::MOUSE | Self::KEY | Self::RAWINPUT | Self::TOUCH | Self::POINTER;
    pub const ALLINPUT: u32 = Self::INPUT
        | Self::POSTMESSAGE
        | Self::TIMER
        | Self::PAINT
        | Self::HOTKEY
        | Self::SENDMESSAGE;
}

/// Type of a registry value.
#[derive(Clone, Copy, Debug, PartialEq, Eq, Structural)]
pub struct REG(pub u32);

impl REG {
    pub const NONE: u32 = 0;
    pub const SZ: u32 = 1;
    pub const EXPAND_SZ: u32 = 2;
    pub const BINARY: u32 = 3;
    pub const DWORD: u32 = 4;
    pub const DWORD_LITTLE_ENDIAN: u32 = 4;
    pub const DWORD_BIG_ENDIAN: u32 = 5;
    pub const LINK: u32 = 6;
    pub const MULTI_SZ: u32 = 7;
    pub const RESOURCE_LIST: u32 = 8;
    pub const FULL_RESOURCE_DESCRIPTOR: u32 = 9;
    pub const RESOURCE_REQUIREMENTS_LIST: u32 = 10;
    pub const QWORD: u32 = 11;
    pub const QWORD_LITTLE_ENDIAN: u32 = 11;
}

/// Option for opening a registry key.
#[derive(Clone, Copy, Debug, PartialEq, Eq, Structural)]
pub struct REG_OPTION(pub u32);

impl REG_OPTION {
    pub const RESERVED: u32 = 0x00000000;
    pub const NON_VOLATILE: u32 = 0x00000000;
    pub const VOLATILE: u32 = 0x00000001;
    pub const CREATE_LINK: u32 = 0x00000002;
    pub const BACKUP_RESTORE: u32 = 0x00000004;
    pub const OPEN_LINK: u32 = 0x00000008;
}

/// Complexity of a region.
#[derive(Clone, Copy, Debug, PartialEq, Eq, Structural)]
pub struct REGION(pub i32);

impl REGION {
    pub const NULL: i32 = 1;
    pub const SIMPLE: i32 = 2;
    pub const COMPLEX: i32 = 3;
}

/// Restriction on the type of a registry value that is read.
#[derive(Clone, Copy, Debug, PartialEq, Eq, Structural)]
pub struct RRF(pub u32);

impl RRF {
    pub const RT_REG_NONE: u32 = 0x00000001;
    pub const RT_REG_SZ: u32 = 0x00000002;
    pub const RT_REG_EXPAND_SZ: u32 = 0x00000004;
    pub const RT_REG_BINARY: u32 = 0x00000008;
    pub const RT_REG_DWORD: u32 = 0x00000010;
    pub const RT_REG_MULTI_SZ: u32 = 0x00000020;
    pub const RT_REG_QWORD: u32 = 0x00000040;
    pub const RT_DWORD: u32 = Self::RT_REG_BINARY | Self::RT_REG_DWORD;
    pub const RT_QWORD: u32 = Self::RT_REG_BINARY | Self::RT_REG_QWORD;
    pub const RT_ANY: u32 = 0x0000ffff;
    pub const SUBKEY_WOW6464KEY: u32 = 0x00010000;
    pub const SUBKEY_WOW6432KEY: u32 = 0x00020000;
    pub const WOW64_MASK: u32 = 0x00030000;
    pub const NOEXPAND: u32 = 0x10000000;
    pub const ZEROONFAILURE: u32 = 0x20000000;
}

/// The composed queue status flags, as numbers.
pub proof fn lemma_queue_status_flags()
    ensures
        QS::MOUSE == 0x0006,
        QS::INPUT == 0x1c07,
        QS::ALLINPUT == 0x1cff,
        RRF::RT_DWORD == 0x0000_0018,
        RRF::RT_QWORD == 0x0000_0048,
{
    assert(QS::MOUSE == 0x0006) by (bit_vector);
    assert(QS::INPUT == 0x1c07) by (bit_vector);
    assert(QS::ALLINPUT == 0x1cff) by (bit_vector);
    assert(RRF::RT_DWORD == 0x0000_0018) by (bit_vector);
    assert(RRF::RT_QWORD == 0x0000_0048) by (bit_vector);
}

} // verus!

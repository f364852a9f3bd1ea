use vstd::prelude::*;

verus! {

/// Standard access rights, as groups.
#[derive(Clone, Copy, Debug, PartialEq, Eq, Structural)]
pub struct STANDARD_RIGHTS(pub u32);

impl STANDARD_RIGHTS {
    pub const REQUIRED: u32 = 0x000f_0000;
    pub const READ: u32 = 0x0002_0000;
    pub const WRITE: u32 = 0x0002_0000;
    pub const EXECUTE: u32 = 0x0002_0000;
    pub const ALL: u32 = 0x001f_0000;
}

/// Sublanguage identifier, combined with a primary language into a language
/// identifier.
#[derive(Clone, Copy, Debug, PartialEq, Eq, Structural)]
pub struct SUBLANG(pub u16);

impl SUBLANG {
    pub const NEUTRAL: u16 = 0x00;
    pub const DEFAULT: u16 = 0x01;
    pub const SYS_DEFAULT: u16 = 0x02;
    pub const CUSTOM_DEFAULT: u16 = 0x03;
    pub const CUSTOM_UNSPECIFIED: u16 = 0x04;
    pub const UI_CUSTOM_DEFAULT: u16 = 0x05;
}

/// What to do with the children of a tree view item.
#[derive(Clone, Copy, Debug, PartialEq, Eq, Structural)]
pub struct TVE(pub u32);

impl TVE {
    pub const COLLAPSE: u32 = 0x0001;
    pub const EXPAND: u32 = 0x0002;
    pub const TOGGLE: u32 = 0x0003;
    pub const EXPANDPARTIAL: u32 = 0x4000;
    pub const COLLAPSERESET: u32 = 0x8000;
}

/// Which item of a tree view to retrieve, relative to a given one.
#[derive(Clone, Copy, Debug, PartialEq, Eq, Structural)]
pub struct TVGN(pub u32);

impl TVGN {
    pub const ROOT: u32 = 0x0000;
    pub const NEXT: u32 = 0x0001;
    pub const PREVIOUS: u32 = 0x0002;
    pub const PARENT: u32 = 0x0003;
    pub const CHILD: u32 = 0x0004;
    pub const FIRSTVISIBLE: u32 = 0x0005;
    pub const NEXTVISIBLE: u32 = 0x0006;
    pub const PREVIOUSVISIBLE: u32 = 0x0007;
    pub const DROPHILITE: u32 = 0x0008;
    pub const CARET: u32 = 0x0009;
    pub const LASTVISIBLE: u32 = 0x000a;
    pub const NEXTSELECTED: u32 = 0x000b;
}

/// Place among its siblings at which a tree view item is inserted.
#[derive(Clone, Copy, Debug, PartialEq, Eq, Structural)]
pub struct TVI(pub isize);

impl TVI {
    pub const ROOT: isize = -0x1_0000;
    pub const FIRST: isize = -0x0_ffff;
    pub const LAST: isize = -0x0_fffe;
    pub const SORT: isize = -0x0_fffd;
}

/// Which fields of a tree view item hold something.
#[derive(Clone, Copy, Debug, PartialEq, Eq, Structural)]
pub struct TVIF(pub u32);

impl TVIF {
    pub const TEXT: u32 = 0x0001;
    pub const IMAGE: u32 = 0x0002;
    pub const PARAM: u32 = 0x0004;
    pub const STATE: u32 = 0x0008;
    pub const HANDLE: u32 = 0x0010;
    pub const SELECTEDIMAGE: u32 = 0x0020;
    pub const CHILDREN: u32 = 0x0040;
    pub const INTEGRAL: u32 = 0x0080;
    pub const STATEEX: u32 = 0x0100;
    pub const EXPANDEDIMAGE: u32 = 0x0200;
}

/// State of a tree view item.
#[derive(Clone, Copy, Debug, PartialEq, Eq, Structural)]
pub struct TVIS(pub u32);

impl TVIS {
    pub const SELECTED: u32 = 0x0002;
    pub const CUT: u32 = 0x0004;
    pub const DROPHILITED: u32 = 0x0008;
    pub const BOLD: u32 = 0x0010;
    pub const EXPANDED: u32 = 0x0020;
    pub const EXPANDEDONCE: u32 = 0x0040;
    pub const EXPANDPARTIAL: u32 = 0x0080;
    pub const OVERLAYMASK: u32 = 0x0f00;
    pub const STATEIMAGEMASK: u32 = 0xf000;
    pub const USERMASK: u32 = 0xf000;

    /// Whether this state and `other` have a bit in common.
    pub open spec fn spec_has(&self, other: TVIS) -> bool {
        self.0 & other.0 != 0
    }

    /// Whether this state and `other` have a bit in common.
    #[verifier::when_used_as_spec(spec_has)]
    pub fn has(&self, other: TVIS) -> (has: bool)
        ensures
            has == self.spec_has(other),
    {
        (self.0 & other.0) != 0
    }
}

} // verus!

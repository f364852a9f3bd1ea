use vstd::prelude::*;

verus! {

/// Answer of a custom draw handler: what the control does next.
#[derive(Clone, Copy, Debug, PartialEq, Eq, Structural)]
pub struct CDRF(pub u32);

impl CDRF {
    pub const DODEFAULT: u32 = 0x0000_0000;
    pub const NEWFONT: u32 = 0x0000_0002;
    pub const SKIPDEFAULT: u32 = 0x0000_0004;
    pub const DOERASE: u32 = 0x0000_0008;
    pub const NOTIFYPOSTPAINT: u32 = 0x0000_0010;
    pub const NOTIFYITEMDRAW: u32 = 0x0000_0020;
    pub const NOTIFYSUBITEMDRAW: u32 = 0x0000_0020;
    pub const NOTIFYPOSTERASE: u32 = 0x0000_0040;
    pub const SKIPPOSTPAINT: u32 = 0x0000_0100;
}

/// Clipping precision of a logical font.
#[derive(Clone, Copy, Debug, PartialEq, Eq, Structural)]
pub struct CLIP(pub u8);

impl CLIP {
    pub const DEFAULT_PRECIS: u8 = 0;
    pub const CHARACTER_PRECIS: u8 = 1;
    pub const STROKE_PRECIS: u8 = 2;
    pub const MASK: u8 = 0xf;
    pub const LH_ANGLES: u8 = 1 << 4;
    pub const TT_ALWAYS: u8 = 2 << 4;
    pub const DFA_DISABLE: u8 = 4 << 4;
    pub const EMBEDDED: u8 = 8 << 4;
}

/// Execution context in which a class object is to run.
#[derive(Clone, Copy, Debug, PartialEq, Eq, Structural)]
pub struct CLSCTX(pub u32);

impl CLSCTX {
    pub const INPROC_SERVER: u32 = 0x1;
    pub const INPROC_HANDLER: u32 = 0x2;
    pub const LOCAL_SERVER: u32 = 0x4;
    pub const INPROC_SERVER16: u32 = 0x8;
    pub const REMOTE_SERVER: u32 = 0x10;
    pub const INPROC_HANDLER16: u32 = 0x20;
    pub const NO_CODE_DOWNLOAD: u32 = 0x400;
    pub const NO_CUSTOM_MARSHAL: u32 = 0x1000;
    pub const ENABLE_CODE_DOWNLOAD: u32 = 0x2000;
    pub const NO_FAILURE_LOG: u32 = 0x4000;
    pub const DISABLE_AAA: u32 = 0x8000;
    pub const ENABLE_AAA: u32 = 0x10000;
    pub const FROM_DEFAULT_CONTEXT: u32 = 0x20000;
    pub const ACTIVATE_X86_SERVER: u32 = 0x40000;
    pub const ACTIVATE_32_BIT_SERVER: u32 = Self::ACTIVATE_X86_SERVER;
    pub const ACTIVATE_64_BIT_SERVER: u32 = 0x80000;
    pub const ENABLE_CLOAKING: u32 = 0x100000;
    pub const APPCONTAINER: u32 = 0x400000;
    pub const ACTIVATE_AAA_AS_IU: u32 = 0x800000;
    pub const ACTIVATE_ARM32_SERVER: u32 = 0x2000000;
    pub const PS_DLL: u32 = 0x80000000;
}

/// Concurrency model asked for when the COM library is initialised.
#[derive(Clone, Copy, Debug, PartialEq, Eq, Structural)]
pub struct COINIT(pub u32);

impl COINIT {
    pub const APARTMENTTHREADED: u32 = 0x2;
    pub const MULTITHREADED: u32 = 0x0;
    pub const DISABLE_OLE1DDE: u32 = 0x4;
    pub const SPEED_OVER_MEMORY: u32 = 0x8;
}

/// Window class style.
#[derive(Clone, Copy, Debug, PartialEq, Eq, Structural)]
pub struct CS(pub u32);

impl CS {
    pub const VREDRAW: u32 = 0x0001;
    pub const HREDRAW: u32 = 0x0002;
    pub const DBLCLKS: u32 = 0x0008;
    pub const OWNDC: u32 = 0x0020;
    pub const CLASSDC: u32 = 0x0040;
    pub const PARENTDC: u32 = 0x0080;
    pub const NOCLOSE: u32 = 0x0200;
    pub const SAVEBITS: u32 = 0x0800;
    pub const BYTEALIGNCLIENT: u32 = 0x1000;
    pub const BYTEALIGNWINDOW: u32 = 0x2000;
    pub const GLOBALCLASS: u32 = 0x4000;
    pub const IME: u32 = 0x00010000;
    pub const DROPSHADOW: u32 = 0x00020000;
}

/// Identifier of a built-in dialog button, also the answer of a message box.
#[derive(Clone, Copy, Debug, PartialEq, Eq, Structural)]
pub struct DLGID(pub u32);

impl DLGID {
    pub const OK: u32 = 1;
    pub const CANCEL: u32 = 2;
    pub const ABORT: u32 = 3;
    pub const RETRY: u32 = 4;
    pub const IGNORE: u32 = 5;
    pub const YES: u32 = 6;
    pub const NO: u32 = 7;
    pub const TRYAGAIN: u32 = 10;
    pub const CONTINUE: u32 = 11;
}

/// The shifted clipping precision flags, as numbers.
pub proof fn lemma_clip_flags()
    ensures
        CLIP::LH_ANGLES == 0x10,
        CLIP::TT_ALWAYS == 0x20,
        CLIP::DFA_DISABLE == 0x40,
        CLIP::EMBEDDED == 0x80,
{
    assert(CLIP::LH_ANGLES == 0x10) by (bit_vector);
    assert(CLIP::TT_ALWAYS == 0x20) by (bit_vector);
    assert(CLIP::DFA_DISABLE == 0x40) by (bit_vector);
    assert(CLIP::EMBEDDED == 0x80) by (bit_vector);
}

} // verus!

use vstd::prelude::*;

use crate::co;
use crate::com::iid::ComInterface;
use crate::com::iid::IID;
use crate::com::iunknown::call_at;
use crate::com::shell::itaskbarlist::ITaskbarList;
use crate::com::shell::itaskbarlist::ITaskbarListVtbl;
use crate::handles::HWND;
use crate::ole::decl::ComPtr;

verus! {

/// The dispatch table of the second taskbar list interface: the table of the
/// first, then one entry of its own.
#[derive(Clone, Copy, Debug, PartialEq, Eq, Structural)]
pub struct ITaskbarList2Vtbl {
    pub iTaskbarListVtbl: ITaskbarListVtbl,
    pub MarkFullscreenWindow: usize,
}

impl ITaskbarList2Vtbl {
    /// Offset of the entry that marks a window as full-screen.
    pub const MARK_FULLSCREEN_WINDOW: usize = 8;
    /// Number of entries.
    pub const LEN: usize = 9;

    /// The entries in table order: those of the base table first.
    pub open spec fn slots(&self) -> Seq<usize> {
        self.iTaskbarListVtbl.slots() + seq![self.MarkFullscreenWindow]
    }

    /// The entry at `offset`, if the table is that long.
    pub fn entry(&self, offset: usize) -> (entry: Option<usize>)
        ensures
            offset < self.slots().len() ==> entry == Some(self.slots()[offset as int]),
            offset >= self.slots().len() ==> entry is None,
    {
        if offset < ITaskbarListVtbl::LEN {
            self.iTaskbarListVtbl.entry(offset)
        } else if offset == Self::MARK_FULLSCREEN_WINDOW {
            Some(self.MarkFullscreenWindow)
        } else {
            None
        }
    }
}

impl ComInterface for ITaskbarList2Vtbl {
    open spec fn spec_iid() -> IID {
        IID::spec_new(0x602d4995, 0xb13a, 0x429b, 0xa66e, 0x1935e44f4317)
    }

    fn Iid() -> IID {
        IID::new(0x602d4995, 0xb13a, 0x429b, 0xa66e, 0x1935e44f4317)
    }
}

/// The table of the second interface starts with the entries of the first, in
/// their order, and its own entry stands at its named offset.
pub proof fn lemma_itaskbarlist2_layout(vt: ITaskbarList2Vtbl)
    ensures
        vt.slots().len() == ITaskbarList2Vtbl::LEN,
        vt.slots().take(ITaskbarListVtbl::LEN as int) == vt.iTaskbarListVtbl.slots(),
        vt.slots()[ITaskbarList2Vtbl::MARK_FULLSCREEN_WINDOW as int] == vt.MarkFullscreenWindow,
{
    assert(vt.slots().take(ITaskbarListVtbl::LEN as int) =~= vt.iTaskbarListVtbl.slots());
}

/// Handle to the second taskbar list interface.
#[derive(Debug)]
pub struct ITaskbarList2 {
    /// The handle of the first interface, which holds the reference.
    pub iTaskbarList: ITaskbarList,
}

impl ITaskbarList2 {
    /// The number that stands for `fFullscreen` in the foreign call.
    pub open spec fn spec_flag(fFullscreen: bool) -> u32 {
        if fFullscreen {
            1
        } else {
            0
        }
    }

    /// The call that marks a window: the entry at
    /// [`ITaskbarList2Vtbl::MARK_FULLSCREEN_WINDOW`] with the address held, and
    /// none where the handle is invalid.
    pub open spec fn spec_call(&self) -> Option<(ComPtr, usize)> {
        call_at(self.iTaskbarList.base@, ITaskbarList2Vtbl::MARK_FULLSCREEN_WINDOW)
    }

    /// Takes over the one reference that came with `ppv`. No call is made.
    pub fn from(ppv: ComPtr) -> (obj: ITaskbarList2)
        ensures
            obj.iTaskbarList.base@ == ppv,
    {
        ITaskbarList2 { iTaskbarList: ITaskbarList::from(ppv) }
    }

    /// Marks the window `hwnd` as full-screen, or not: calls the entry at
    /// [`ITaskbarList2Vtbl::MARK_FULLSCREEN_WINDOW`] with the address held,
    /// `hwnd` and the flag as a number, and makes a result of the status it
    /// returns. On an invalid handle no call is made and the result is `None`.
    pub fn MarkFullscreenWindow<F: FnOnce(ComPtr, usize, HWND, u32) -> u32>(
        &self,
        hwnd: HWND,
        fFullscreen: bool,
        invoke: F,
    ) -> (res: Option<Result<(), co::ERROR>>)
        requires
            self.spec_call() matches Some((ptr, slot)) ==> invoke.requires(
                (ptr, slot, hwnd, Self::spec_flag(fFullscreen)),
            ),
        ensures
            self.spec_call() matches Some((ptr, slot)) ==> exists|code: u32|
                invoke.ensures((ptr, slot, hwnd, Self::spec_flag(fFullscreen)), code) && res
                    == Some(co::ERROR::spec_to_result(code)),
            self.spec_call() is None ==> res is None,
    {
        let ppv: ComPtr = self.iTaskbarList.base.ppv();
        if ppv.is_null() {
            None
        } else {
            let flag: u32 = if fFullscreen {
                1
            } else {
                0
            };
            let code: u32 = invoke(ppv, ITaskbarList2Vtbl::MARK_FULLSCREEN_WINDOW, hwnd, flag);
            Some(co::ERROR::to_result(code))
        }
    }
}

} // verus!

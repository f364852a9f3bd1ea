use vstd::prelude::*;

use crate::co;
use crate::com::iunknown::call_at;
use crate::com::iunknown::IUnknown;
use crate::com::iunknown::IUnknownVtbl;
use crate::handles::HWND;
use crate::ole::decl::ComPtr;

verus! {

/// The dispatch table of a taskbar list: the base table, then five entries of
/// its own.
#[derive(Clone, Copy, Debug, PartialEq, Eq, Structural)]
pub struct ITaskbarListVtbl {
    pub iUnknownVtbl: IUnknownVtbl,
    pub hrInit: usize,
    pub addTab: usize,
    pub deleteTab: usize,
    pub activateTab: usize,
    pub setActiveAlt: usize,
}

impl ITaskbarListVtbl {
    /// Offset of the entry that initialises the list.
    pub const HR_INIT: usize = 3;
    /// Offset of the entry that adds a tab.
    pub const ADD_TAB: usize = 4;
    /// Offset of the entry that deletes a tab.
    pub const DELETE_TAB: usize = 5;
    /// Offset of the entry that activates a tab.
    pub const ACTIVATE_TAB: usize = 6;
    /// Offset of the entry that marks a tab as active without activating it.
    pub const SET_ACTIVE_ALT: usize = 7;
    /// Number of entries.
    pub const LEN: usize = 8;

    /// The entries in table order: those of the base table first.
    pub open spec fn slots(&self) -> Seq<usize> {
        self.iUnknownVtbl.slots() + seq![
            self.hrInit,
            self.addTab,
            self.deleteTab,
            self.activateTab,
            self.setActiveAlt,
        ]
    }

    /// The entry at `offset`, if the table is that long.
    pub fn entry(&self, offset: usize) -> (entry: Option<usize>)
        ensures
            offset < self.slots().len() ==> entry == Some(self.slots()[offset as int]),
            offset >= self.slots().len() ==> entry is None,
    {
        if offset < IUnknownVtbl::LEN {
            self.iUnknownVtbl.entry(offset)
        } else if offset == Self::HR_INIT {
            Some(self.hrInit)
        } else if offset == Self::ADD_TAB {
            Some(self.addTab)
        } else if offset == Self::DELETE_TAB {
            Some(self.deleteTab)
        } else if offset == Self::ACTIVATE_TAB {
            Some(self.activateTab)
        } else if offset == Self::SET_ACTIVE_ALT {
            Some(self.setActiveAlt)
        } else {
            None
        }
    }
}

/// The table of a taskbar list starts with the entries of its base table, in
/// their order, and each of its own entries stands at its named offset.
pub proof fn lemma_itaskbarlist_layout(vt: ITaskbarListVtbl)
    ensures
        vt.slots().len() == ITaskbarListVtbl::LEN,
        vt.slots().take(IUnknownVtbl::LEN as int) == vt.iUnknownVtbl.slots(),
        vt.slots()[ITaskbarListVtbl::HR_INIT as int] == vt.hrInit,
        vt.slots()[ITaskbarListVtbl::ADD_TAB as int] == vt.addTab,
        vt.slots()[ITaskbarListVtbl::DELETE_TAB as int] == vt.deleteTab,
        vt.slots()[ITaskbarListVtbl::ACTIVATE_TAB as int] == vt.activateTab,
        vt.slots()[ITaskbarListVtbl::SET_ACTIVE_ALT as int] == vt.setActiveAlt,
{
    assert(vt.slots().take(IUnknownVtbl::LEN as int) =~= vt.iUnknownVtbl.slots());
}

/// Handle to a taskbar list. It is the base handle seen through a longer
/// table: nothing tells whether the object really has that table.
#[derive(Debug)]
pub struct ITaskbarList {
    /// The base handle, which holds the reference.
    pub base: IUnknown,
}

impl ITaskbarList {
    /// Takes over the one reference that came with `ppv`. No call is made.
    pub fn from(ppv: ComPtr) -> (obj: ITaskbarList)
        ensures
            obj.base@ == ppv,
    {
        ITaskbarList { base: IUnknown::from(ppv) }
    }

    /// Marks the tab of `hwnd` as active without activating it: calls the
    /// entry at [`ITaskbarListVtbl::SET_ACTIVE_ALT`] with the address held and
    /// `hwnd`, and makes a result of the status it returns. On an invalid
    /// handle no call is made and the result is `None`.
    pub fn SetActiveAlt<F: FnOnce(ComPtr, usize, HWND) -> u32>(
        &self,
        hwnd: HWND,
        invoke: F,
    ) -> (res: Option<Result<(), co::ERROR>>)
        requires
            call_at(self.base@, ITaskbarListVtbl::SET_ACTIVE_ALT) matches Some((ptr, slot))
                ==> invoke.requires((ptr, slot, hwnd)),
        ensures
            call_at(self.base@, ITaskbarListVtbl::SET_ACTIVE_ALT) matches Some((ptr, slot))
                ==> exists|code: u32|
                invoke.ensures((ptr, slot, hwnd), code) && res == Some(
                    co::ERROR::spec_to_result(code),
                ),
            call_at(self.base@, ITaskbarListVtbl::SET_ACTIVE_ALT) is None ==> res is None,
    {
        let ppv: ComPtr = self.base.ppv();
        if ppv.is_null() {
            None
        } else {
            let code: u32 = invoke(ppv, ITaskbarListVtbl::SET_ACTIVE_ALT, hwnd);
            Some(co::ERROR::to_result(code))
        }
    }
}

} // verus!

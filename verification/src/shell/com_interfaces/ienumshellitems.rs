use std::marker::PhantomData;

use vstd::prelude::*;

use crate::co::HRESULT;
use crate::com::iid::ComInterface;
use crate::com::iid::IID;
use crate::com::iunknown::call_at;
use crate::com::iunknown::IUnknown;
use crate::com::iunknown::IUnknownVT;
use crate::com::iunknown::IUnknownVtbl;
use crate::com::shell::itaskbarlist2::ITaskbarList2Vtbl;
use crate::ffi_types::HRES;
use crate::ole::decl::ole_IUnknown;
use crate::ole::decl::ComPtr;
use crate::ole::decl::HrResult;
use crate::ole::privs::ok_to_hrresult;
use crate::ole::privs::okfalse_to_hrresult;
use crate::ole::privs::spec_ok_to_hrresult;
use crate::ole::privs::spec_okfalse_to_hrresult;
use crate::shell::com_interfaces::ishellitem::IShellItem;

verus! {

/// The dispatch table of an enumerator of shell items: the base table, then
/// four entries of its own.
#[derive(Clone, Copy, Debug, PartialEq, Eq, Structural)]
pub struct IEnumShellItemsVT {
    pub IUnknownVT: IUnknownVT,
    pub Next: usize,
    pub Skip: usize,
    pub Reset: usize,
    pub Clone: usize,
}

impl IEnumShellItemsVT {
    /// Offset of the entry that hands out the next items.
    pub const NEXT: usize = 3;
    /// Offset of the entry that skips items.
    pub const SKIP: usize = 4;
    /// Offset of the entry that starts the enumeration over.
    pub const RESET: usize = 5;
    /// Offset of the entry that copies the enumerator.
    pub const CLONE: usize = 6;
    /// Number of entries.
    pub const LEN: usize = 7;

    /// The entries in table order: those of the base table first.
    pub open spec fn slots(&self) -> Seq<usize> {
        self.IUnknownVT.slots() + seq![self.Next, self.Skip, self.Reset, self.Clone]
    }

    /// The entry at `offset`, if the table is that long.
    pub fn entry(&self, offset: usize) -> (entry: Option<usize>)
        ensures
            offset < self.slots().len() ==> entry == Some(self.slots()[offset as int]),
            offset >= self.slots().len() ==> entry is None,
    {
        if offset < IUnknownVtbl::LEN {
            self.IUnknownVT.entry(offset)
        } else if offset == Self::NEXT {
            Some(self.Next)
        } else if offset == Self::SKIP {
            Some(self.Skip)
        } else if offset == Self::RESET {
            Some(self.Reset)
        } else if offset == Self::CLONE {
            Some(self.Clone)
        } else {
            None
        }
    }
}

impl ComInterface for IEnumShellItemsVT {
    open spec fn spec_iid() -> IID {
        IID::spec_new(0x70629033, 0xe363, 0x4a28, 0xa567, 0x0db78006e6d7)
    }

    fn Iid() -> IID {
        IID::new(0x70629033, 0xe363, 0x4a28, 0xa567, 0x0db78006e6d7)
    }
}

/// The table of an enumerator starts with the entries of the base table, in
/// their order, and each of its own entries stands at its named offset.
pub proof fn lemma_ienumshellitems_layout(vt: IEnumShellItemsVT)
    ensures
        vt.slots().len() == IEnumShellItemsVT::LEN,
        vt.slots().take(IUnknownVtbl::LEN as int) == vt.IUnknownVT.slots(),
        vt.slots()[IEnumShellItemsVT::NEXT as int] == vt.Next,
        vt.slots()[IEnumShellItemsVT::SKIP as int] == vt.Skip,
        vt.slots()[IEnumShellItemsVT::RESET as int] == vt.Reset,
        vt.slots()[IEnumShellItemsVT::CLONE as int] == vt.Clone,
{
    assert(vt.slots().take(IUnknownVtbl::LEN as int) =~= vt.IUnknownVT.slots());
}

/// The identifiers of the table shapes of this library name them apart: no
/// two of them are the same.
pub proof fn lemma_interface_ids_differ()
    ensures
        IUnknownVtbl::spec_iid() != ITaskbarList2Vtbl::spec_iid(),
        IUnknownVtbl::spec_iid() != IEnumShellItemsVT::spec_iid(),
        ITaskbarList2Vtbl::spec_iid() != IEnumShellItemsVT::spec_iid(),
{
}

/// Handle to an enumerator of shell items.
#[derive(Debug)]
pub struct IEnumShellItems(pub IUnknown);

impl IEnumShellItems {
    /// Takes over the one reference that came with `com_ptr`. No call is made.
    pub fn from(com_ptr: ComPtr) -> (obj: IEnumShellItems)
        ensures
            obj.spec_ptr() == com_ptr,
    {
        IEnumShellItems(IUnknown::from(com_ptr))
    }
}

impl ole_IUnknown for IEnumShellItems {
    open spec fn spec_ptr(&self) -> ComPtr {
        self.0@
    }

    fn ptr(&self) -> ComPtr {
        self.0.ppv()
    }
}

impl shell_IEnumShellItems for IEnumShellItems {

}

/// Whether `res` is what a request for the next item amounts to, where the
/// foreign call returned the status `hr` and the address `queried`: the item
/// at that address on success, no item on the no-item sentinel, and otherwise
/// the error that carries `hr`.
pub open spec fn is_next_result(
    hr: HRES,
    queried: ComPtr,
    res: HrResult<Option<IShellItem>>,
) -> bool {
    if hr == HRESULT::S_OK {
        res matches Ok(Some(item)) && item.spec_ptr() == queried
    } else if hr == HRESULT::S_FALSE {
        res matches Ok(None)
    } else {
        res == Err::<Option<IShellItem>, HRESULT>(HRESULT(hr))
    }
}

/// The operations of an enumerator of shell items.
pub trait shell_IEnumShellItems: ole_IUnknown {
    /// A cursor over the items, which asks for them one at a time. It holds
    /// the address of this enumerator without owning a reference.
    fn iter(&self) -> (iter: EnumShellItemsIter<'_>)
        ensures
            iter@ == (self.spec_ptr(), false),
    {
        EnumShellItemsIter::new(self.ptr())
    }

    /// Asks for the next item: calls the entry at [`IEnumShellItemsVT::NEXT`]
    /// with the address held and a request for one item. The call returns a
    /// status, the address of the item and the number of items it handed out.
    /// On an invalid handle no call is made and the result is `None`.
    fn Next<F: FnOnce(ComPtr, usize, u32) -> (HRES, ComPtr, u32)>(
        &self,
        invoke: F,
    ) -> (res: Option<HrResult<Option<IShellItem>>>)
        requires
            call_at(self.spec_ptr(), IEnumShellItemsVT::NEXT) matches Some((ptr, slot))
                ==> invoke.requires((ptr, slot, 1u32)),
        ensures
            call_at(self.spec_ptr(), IEnumShellItemsVT::NEXT) matches Some((ptr, slot))
                ==> exists|hr: HRES, queried: ComPtr, fetched: u32|
                invoke.ensures((ptr, slot, 1u32), (hr, queried, fetched)) && res is Some
                    && is_next_result(hr, queried, res->Some_0),
            call_at(self.spec_ptr(), IEnumShellItemsVT::NEXT) is None ==> res is None,
    {
        let ptr: ComPtr = self.ptr();
        if ptr.is_null() {
            None
        } else {
            let (hr, queried, _fetched) = invoke(ptr, IEnumShellItemsVT::NEXT, 1u32);
            Some(
                match ok_to_hrresult(hr) {
                    Ok(_) => Ok(Some(IShellItem::from(queried))),
                    Err(err) => if err.0 == HRESULT::S_FALSE {
                        Ok(None)
                    } else {
                        Err(err)
                    },
                },
            )
        }
    }

    /// Starts the enumeration over: calls the entry at
    /// [`IEnumShellItemsVT::RESET`] with the address held and makes a result
    /// of the status it returns. On an invalid handle no call is made and the
    /// result is `None`.
    fn Reset<F: FnOnce(ComPtr, usize) -> HRES>(&self, invoke: F) -> (res: Option<HrResult<()>>)
        requires
            call_at(self.spec_ptr(), IEnumShellItemsVT::RESET) matches Some(call)
                ==> invoke.requires(call),
        ensures
            call_at(self.spec_ptr(), IEnumShellItemsVT::RESET) matches Some(call) ==> exists|
                hr: HRES,
            | invoke.ensures(call, hr) && res == Some(spec_ok_to_hrresult(hr)),
            call_at(self.spec_ptr(), IEnumShellItemsVT::RESET) is None ==> res is None,
    {
        let ptr: ComPtr = self.ptr();
        if ptr.is_null() {
            None
        } else {
            let hr: HRES = invoke(ptr, IEnumShellItemsVT::RESET);
            Some(ok_to_hrresult(hr))
        }
    }

    /// Skips `count` items: calls the entry at [`IEnumShellItemsVT::SKIP`]
    /// with the address held and `count`, and makes a result of the status it
    /// returns, where `Ok(false)` says that fewer items were left. On an
    /// invalid handle no call is made and the result is `None`.
    fn Skip<F: FnOnce(ComPtr, usize, u32) -> HRES>(
        &self,
        count: u32,
        invoke: F,
    ) -> (res: Option<HrResult<bool>>)
        requires
            call_at(self.spec_ptr(), IEnumShellItemsVT::SKIP) matches Some((ptr, slot))
                ==> invoke.requires((ptr, slot, count)),
        ensures
            call_at(self.spec_ptr(), IEnumShellItemsVT::SKIP) matches Some((ptr, slot))
                ==> exists|hr: HRES|
                invoke.ensures((ptr, slot, count), hr) && res == Some(
                    spec_okfalse_to_hrresult(hr),
                ),
            call_at(self.spec_ptr(), IEnumShellItemsVT::SKIP) is None ==> res is None,
    {
        let ptr: ComPtr = self.ptr();
        if ptr.is_null() {
            None
        } else {
            let hr: HRES = invoke(ptr, IEnumShellItemsVT::SKIP, count);
            Some(okfalse_to_hrresult(hr))
        }
    }
}

/// Whether `res` is what one step of a cursor returns, where the foreign call
/// returned the status `hr` and the address `queried`: the item on success,
/// `None` on the no-item sentinel, and otherwise the error that carries `hr`.
pub open spec fn is_iter_step(
    hr: HRES,
    queried: ComPtr,
    res: Option<HrResult<IShellItem>>,
) -> bool {
    if hr == HRESULT::S_OK {
        res matches Some(Ok(item)) && item.spec_ptr() == queried
    } else if hr == HRESULT::S_FALSE {
        res is None
    } else {
        res == Some(Err::<IShellItem, HRESULT>(HRESULT(hr)))
    }
}

/// The call that the next step of a cursor makes, where `state` is the
/// address of its enumerator and whether it is done: none once the cursor is
/// done, and otherwise the call that a request for the next item makes, which
/// is none where the enumerator is invalid.
pub open spec fn cursor_call(state: (ComPtr, bool)) -> Option<(ComPtr, usize)> {
    if state.1 {
        None
    } else {
        call_at(state.0, IEnumShellItemsVT::NEXT)
    }
}

/// The cursor after one step, where `hr` is the status that the enumerator
/// returns if it is asked. A step that makes no call ends the cursor, and so
/// does the no-item sentinel; after an item or an error the cursor goes on.
pub open spec fn after_step(state: (ComPtr, bool), hr: HRES) -> (ComPtr, bool) {
    (state.0, cursor_call(state) is None || hr == HRESULT::S_FALSE)
}

/// The cursor after a run of steps, one for each element of `statuses`.
pub open spec fn after_steps(state: (ComPtr, bool), statuses: Seq<HRES>) -> (ComPtr, bool)
    decreases statuses.len(),
{
    if statuses.len() == 0 {
        state
    } else {
        after_step(after_steps(state, statuses.drop_last()), statuses.last())
    }
}

/// A cursor that is done stays done: no run of steps changes it, and none of
/// them makes a call.
pub proof fn lemma_done_cursor_stays_done(state: (ComPtr, bool), statuses: Seq<HRES>)
    requires
        state.1,
    ensures
        after_steps(state, statuses) == state,
        cursor_call(after_steps(state, statuses)) is None,
    decreases statuses.len(),
{
    if statuses.len() > 0 {
        lemma_done_cursor_stays_done(state, statuses.drop_last());
    }
}

/// The no-item sentinel ends a cursor: after the step that met it, the cursor
/// is done, and with it every later step of the run makes no call.
pub proof fn lemma_sentinel_ends_cursor(
    state: (ComPtr, bool),
    statuses: Seq<HRES>,
    i: int,
    j: int,
)
    requires
        0 <= i < j <= statuses.len(),
        statuses[i] == HRESULT::S_FALSE,
    ensures
        after_steps(state, statuses.take(i + 1)).1,
        cursor_call(after_steps(state, statuses.take(j))) is None,
    decreases j - i,
{
    assert(statuses.take(i + 1).drop_last() =~= statuses.take(i));
    assert(statuses.take(i + 1).last() == statuses[i]);
    if j > i + 1 {
        lemma_sentinel_ends_cursor(state, statuses, i, j - 1);
        assert(statuses.take(j).drop_last() =~= statuses.take(j - 1));
    }
}

/// A cursor over the items of an enumerator. Once the enumerator has reported
/// that no item is left, the cursor is done and asks no more.
#[derive(Debug)]
pub struct EnumShellItemsIter<'a> {
    array: IEnumShellItems,
    done: bool,
    _owner: PhantomData<&'a ()>,
}

impl<'a> View for EnumShellItemsIter<'a> {
    type V = (ComPtr, bool);

    /// The address of the enumerator, and whether the cursor is done.
    closed spec fn view(&self) -> (ComPtr, bool) {
        (self.array.spec_ptr(), self.done)
    }
}

impl<'a> EnumShellItemsIter<'a> {
    /// A cursor at the start of the enumerator at `com_ptr`.
    pub fn new(com_ptr: ComPtr) -> (iter: Self)
        ensures
            iter@ == (com_ptr, false),
    {
        Self { array: IEnumShellItems::from(com_ptr), done: false, _owner: PhantomData }
    }

    /// Whether the cursor has seen the end of the items.
    pub fn is_done(&self) -> (done: bool)
        ensures
            done == self@.1,
    {
        self.done
    }

    /// The next item, an error, or `None` at the end of the items.
    ///
    /// A cursor that is done makes no call and returns `None`. So does one
    /// whose enumerator is invalid, which is then done. Any other asks the
    /// enumerator for the next item and returns it or the error; on the
    /// no-item sentinel it returns `None` and is done.
    pub fn next<F: FnOnce(ComPtr, usize, u32) -> (HRES, ComPtr, u32)>(
        &mut self,
        invoke: F,
    ) -> (res: Option<HrResult<IShellItem>>)
        requires
            cursor_call(old(self)@) matches Some((ptr, slot)) ==> invoke.requires(
                (ptr, slot, 1u32),
            ),
        ensures
            cursor_call(old(self)@) matches Some((ptr, slot)) ==> exists|
                hr: HRES,
                queried: ComPtr,
                fetched: u32,
            |
                invoke.ensures((ptr, slot, 1u32), (hr, queried, fetched)) && is_iter_step(
                    hr,
                    queried,
                    res,
                ) && final(self)@ == after_step(old(self)@, hr),
            cursor_call(old(self)@) is None ==> res is None && final(self)@ == (
                old(self)@.0,
                true,
            ),
    {
        if self.done {
            return None;
        }
        match self.array.Next(invoke) {
            None => {
                self.done = true;
                None
            },
            Some(Err(err)) => Some(Err(err)),
            Some(Ok(maybe_item)) => match maybe_item {
                None => {
                    self.done = true;
                    None
                },
                Some(item) => Some(Ok(item)),
            },
        }
    }
}

} // verus!

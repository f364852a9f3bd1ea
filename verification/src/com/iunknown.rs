use vstd::prelude::*;

use crate::com::iid::ComInterface;
use crate::com::iid::IID;
use crate::ole::decl::ole_IUnknown;
use crate::ole::decl::ComPtr;

verus! {

/// The dispatch table that every foreign object starts with. Each field holds
/// the address of one entry.
#[derive(Clone, Copy, Debug, PartialEq, Eq, Structural)]
pub struct IUnknownVtbl {
    pub QueryInterface: usize,
    pub AddRef: usize,
    pub Release: usize,
}

/// The base dispatch table, under the name that the tables built on it use.
pub type IUnknownVT = IUnknownVtbl;

impl IUnknownVtbl {
    /// Offset of the entry that queries for another interface.
    pub const QUERY_INTERFACE: usize = 0;
    /// Offset of the entry that acquires a reference.
    pub const ADD_REF: usize = 1;
    /// Offset of the entry that releases a reference.
    pub const RELEASE: usize = 2;
    /// Number of entries.
    pub const LEN: usize = 3;

    /// The entries in table order.
    pub open spec fn slots(&self) -> Seq<usize> {
        seq![self.QueryInterface, self.AddRef, self.Release]
    }

    /// The entry at `offset`, if the table is that long.
    pub fn entry(&self, offset: usize) -> (entry: Option<usize>)
        ensures
            offset < self.slots().len() ==> entry == Some(self.slots()[offset as int]),
            offset >= self.slots().len() ==> entry is None,
    {
        if offset == Self::QUERY_INTERFACE {
            Some(self.QueryInterface)
        } else if offset == Self::ADD_REF {
            Some(self.AddRef)
        } else if offset == Self::RELEASE {
            Some(self.Release)
        } else {
            None
        }
    }
}

impl ComInterface for IUnknownVtbl {
    open spec fn spec_iid() -> IID {
        IID::spec_new(0x00000000, 0x0000, 0x0000, 0xc000, 0x000000000046)
    }

    fn Iid() -> IID {
        IID::new(0x00000000, 0x0000, 0x0000, 0xc000, 0x000000000046)
    }
}

/// The first three entries of every table are, in this order, query, acquire
/// and release.
pub proof fn lemma_iunknown_layout(vt: IUnknownVtbl)
    ensures
        vt.slots().len() == IUnknownVtbl::LEN,
        vt.slots()[IUnknownVtbl::QUERY_INTERFACE as int] == vt.QueryInterface,
        vt.slots()[IUnknownVtbl::ADD_REF as int] == vt.AddRef,
        vt.slots()[IUnknownVtbl::RELEASE as int] == vt.Release,
{
}

/// The address that a handle holds after one release, where `count` is what
/// the foreign side reported. On an invalid handle no call is made and the
/// handle stays invalid; a report of zero invalidates the handle.
pub open spec fn after_release(ptr: ComPtr, count: u32) -> ComPtr {
    if ptr.is_null() || count == 0 {
        ComPtr(0)
    } else {
        ptr
    }
}

/// The call that a handle makes at the entry `slot` of its table, where it
/// holds `ptr`: that entry with that address, and no call at all where the
/// handle is invalid.
pub open spec fn call_at(ptr: ComPtr, slot: usize) -> Option<(ComPtr, usize)> {
    if ptr.is_null() {
        None
    } else {
        Some((ptr, slot))
    }
}

/// The call that a release makes on a handle that holds `ptr`.
pub open spec fn release_call(ptr: ComPtr) -> Option<(ComPtr, usize)> {
    call_at(ptr, IUnknownVtbl::RELEASE)
}

/// The address that a handle holds after a run of releases, one for each
/// element of `counts`.
pub open spec fn after_releases(ptr: ComPtr, counts: Seq<u32>) -> ComPtr
    decreases counts.len(),
{
    if counts.len() == 0 {
        ptr
    } else {
        after_release(after_releases(ptr, counts.drop_last()), counts.last())
    }
}

/// A handle that was never released still holds the address it was made
/// from. If that address is valid, the next release makes its call at the
/// release entry. A report of zero then invalidates the handle, so that no
/// later release makes a call; any other report leaves the handle as it was.
pub proof fn lemma_unreleased_handle_owes_a_release(ptr: ComPtr, count: u32)
    requires
        !ptr.is_null(),
    ensures
        after_releases(ptr, Seq::<u32>::empty()) == ptr,
        release_call(ptr) == Some((ptr, IUnknownVtbl::RELEASE)),
        count == 0 ==> after_release(ptr, count).is_null() && release_call(
            after_release(ptr, count),
        ) is None,
        count != 0 ==> after_release(ptr, count) == ptr,
{
}

/// Invalidation is final: once a handle is invalid, no run of releases makes
/// it valid again.
pub proof fn lemma_invalidation_is_final(ptr: ComPtr, counts: Seq<u32>)
    requires
        ptr.is_null(),
    ensures
        after_releases(ptr, counts).is_null(),
    decreases counts.len(),
{
    if counts.len() > 0 {
        lemma_invalidation_is_final(ptr, counts.drop_last());
    }
}

/// Invalidation is monotonic: if the handle is invalid after the first `n`
/// releases of a run, it is invalid after the whole run.
pub proof fn lemma_invalidation_is_monotonic(ptr: ComPtr, counts: Seq<u32>, n: int)
    requires
        0 <= n <= counts.len(),
        after_releases(ptr, counts.take(n)).is_null(),
    ensures
        after_releases(ptr, counts).is_null(),
    decreases counts.len() - n,
{
    if n == counts.len() {
        assert(counts.take(n) =~= counts);
    } else {
        assert(counts.take(n + 1).drop_last() =~= counts.take(n));
        lemma_invalidation_is_monotonic(ptr, counts, n + 1);
    }
}

/// Releasing an invalid handle is idempotent: each release of a run finds the
/// handle invalid, so it makes no call, which is when it returns zero, and it
/// leaves the handle as it was.
pub proof fn lemma_release_of_invalid_is_no_op(ptr: ComPtr, counts: Seq<u32>, i: int)
    requires
        ptr.is_null(),
        0 <= i < counts.len(),
    ensures
        after_releases(ptr, counts.take(i)).is_null(),
        release_call(after_releases(ptr, counts.take(i))) is None,
        after_releases(ptr, counts.take(i + 1)) == after_releases(ptr, counts.take(i)),
{
    lemma_invalidation_is_final(ptr, counts.take(i));
    assert(counts.take(i + 1).drop_last() =~= counts.take(i));
}

/// A valid handle makes each of its calls at the entry it names, with the
/// address it holds as it is.
pub proof fn lemma_call_keeps_address_and_offset(ptr: ComPtr, slot: usize)
    requires
        !ptr.is_null(),
    ensures
        call_at(ptr, slot) == Some((ptr, slot)),
{
}

/// Once a handle is invalid, no call is made at any entry, whatever run of
/// releases has come in between.
pub proof fn lemma_invalid_handle_makes_no_call(ptr: ComPtr, counts: Seq<u32>, slot: usize)
    requires
        ptr.is_null(),
    ensures
        call_at(after_releases(ptr, counts), slot) is None,
{
    lemma_invalidation_is_final(ptr, counts);
}

/// After a run of releases a handle is either invalid or holds the address it
/// started with, and it is invalid exactly if it started invalid or the run
/// holds a report of zero.
pub proof fn lemma_invalid_iff_zero_reported(ptr: ComPtr, counts: Seq<u32>)
    ensures
        after_releases(ptr, counts).is_null() || after_releases(ptr, counts) == ptr,
        after_releases(ptr, counts).is_null() <==> ptr.is_null() || exists|i: int|
            0 <= i < counts.len() && counts[i] == 0,
    decreases counts.len(),
{
    if counts.len() > 0 {
        let front: Seq<u32> = counts.drop_last();
        lemma_invalid_iff_zero_reported(ptr, front);
        if exists|i: int| 0 <= i < front.len() && front[i] == 0 {
            let i: int = choose|i: int| 0 <= i < front.len() && front[i] == 0;
            assert(counts[i] == 0);
        }
        if exists|i: int| 0 <= i < counts.len() && counts[i] == 0 {
            let i: int = choose|i: int| 0 <= i < counts.len() && counts[i] == 0;
            if i < front.len() {
                assert(front[i] == 0);
            } else {
                assert(counts.last() == 0);
            }
        }
    }
}

/// A valid handle stays valid, with its address unchanged, through every
/// release on which the foreign side reports a count other than zero.
pub proof fn lemma_valid_while_counted(ptr: ComPtr, counts: Seq<u32>)
    requires
        !ptr.is_null(),
        forall|i: int| 0 <= i < counts.len() ==> counts[i] != 0,
    ensures
        after_releases(ptr, counts) == ptr,
    decreases counts.len(),
{
    if counts.len() > 0 {
        lemma_valid_while_counted(ptr, counts.drop_last());
    }
}

/// One owned reference to a foreign object.
///
/// The handle holds the address of the object and nothing else; the count of
/// references lives on the foreign side. A handle is not `Clone`: a second
/// handle to the same object takes an explicit [`IUnknown::AddRef`].
#[derive(Debug)]
pub struct IUnknown {
    vtbl: ComPtr,
}

impl View for IUnknown {
    type V = ComPtr;

    /// The address this handle holds.
    closed spec fn view(&self) -> ComPtr {
        self.vtbl
    }
}

impl IUnknown {
    /// Takes over the one reference that came with `ppv`. No call is made.
    pub fn from(ppv: ComPtr) -> (obj: IUnknown)
        ensures
            obj@ == ppv,
    {
        IUnknown { vtbl: ppv }
    }

    /// The address of the object, or the invalid sentinel once the last
    /// reference is released.
    pub fn ppv(&self) -> (ppv: ComPtr)
        ensures
            ppv == self@,
    {
        self.vtbl
    }

    /// Acquires one more reference: calls the acquire entry with the address
    /// held and returns the count it reports. The handle does not change. On
    /// an invalid handle no call is made and the result is zero.
    pub fn AddRef<F: FnOnce(ComPtr, usize) -> u32>(&self, invoke: F) -> (count: u32)
        requires
            call_at(self@, IUnknownVtbl::ADD_REF) matches Some(call) ==> invoke.requires(call),
        ensures
            call_at(self@, IUnknownVtbl::ADD_REF) matches Some(call) ==> invoke.ensures(
                call,
                count,
            ),
            call_at(self@, IUnknownVtbl::ADD_REF) is None ==> count == 0,
    {
        if self.vtbl.is_null() {
            0
        } else {
            invoke(self.vtbl, IUnknownVtbl::ADD_REF)
        }
    }

    /// Releases one reference: calls the release entry with the address held
    /// and returns the count it reports; a count of zero invalidates the
    /// handle. On an invalid handle no call is made, the result is zero and
    /// the handle stays as it is.
    pub fn Release<F: FnOnce(ComPtr, usize) -> u32>(&mut self, invoke: F) -> (count: u32)
        requires
            release_call(old(self)@) matches Some(call) ==> invoke.requires(call),
        ensures
            release_call(old(self)@) matches Some(call) ==> invoke.ensures(call, count),
            release_call(old(self)@) is None ==> count == 0,
            final(self)@ == after_release(old(self)@, count),
    {
        if self.vtbl.is_null() {
            0
        } else {
            let count: u32 = invoke(self.vtbl, IUnknownVtbl::RELEASE);
            if count == 0 {
                self.vtbl = ComPtr::null();
            }
            count
        }
    }
}

impl ole_IUnknown for IUnknown {
    open spec fn spec_ptr(&self) -> ComPtr {
        self@
    }

    fn ptr(&self) -> ComPtr {
        self.vtbl
    }
}

} // verus!

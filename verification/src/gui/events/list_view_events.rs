use vstd::prelude::*;

use crate::co;
use crate::structs::NMCUSTOMDRAW;
use crate::structs::NMHDR;
use crate::structs::NMITEMACTIVATE;
use crate::structs::NMLVFINDITEM;

verus! {

/// The notifications of one list view control, as its parent window sees
/// them.
///
/// Each method stands for one handler: it is given a notification that has
/// come in and the handler `func`. If the notification is the one the method
/// is for, and comes from this control, the method calls `func` and returns
/// what the parent answers. If not, `func` is not called and the result is
/// `None`: the notification is for somebody else.
#[derive(Debug)]
pub struct ListViewEvents {
    ctrl_id: u16,
}

impl View for ListViewEvents {
    type V = u16;

    /// The identifier of the control.
    closed spec fn view(&self) -> u16 {
        self.ctrl_id
    }
}

impl ListViewEvents {
    /// The notifications of the control with the identifier `ctrl_id`.
    pub fn new(ctrl_id: u16) -> (events: ListViewEvents)
        ensures
            events@ == ctrl_id,
    {
        ListViewEvents { ctrl_id }
    }

    /// Whether a notification with the head `hdr` comes from this control and
    /// has the code `code`.
    pub open spec fn spec_is_for(&self, hdr: NMHDR, code: i32) -> bool {
        hdr.idFrom == self@ && hdr.code.0 == code
    }

    /// Whether a notification with the head `hdr` comes from this control and
    /// has the code `code`.
    pub fn is_for(&self, hdr: &NMHDR, code: i32) -> (is_for: bool)
        ensures
            is_for == self.spec_is_for(*hdr, code),
    {
        hdr.idFrom == self.ctrl_id as usize && hdr.code.0 == code
    }

    /// What is answered to a request to find an item: the index that the
    /// handler found, or -1 where it found none.
    pub open spec fn spec_found(found: Option<u32>) -> isize {
        match found {
            Some(idx) => idx as isize,
            None => -1isize,
        }
    }

    /// The owner of a virtual list view is asked to find an item. `func`
    /// returns the index of the item, or `None` where it finds none; the
    /// answer is that index, or -1.
    pub fn lvn_od_find_item<F: FnOnce(&NMLVFINDITEM) -> Option<u32>>(
        &self,
        p: &NMLVFINDITEM,
        func: F,
    ) -> (res: Option<isize>)
        requires
            self.spec_is_for(p.hdr, co::NM::LVN_ODFINDITEM) ==> func.requires((p,)),
        ensures
            !self.spec_is_for(p.hdr, co::NM::LVN_ODFINDITEM) ==> res is None,
            self.spec_is_for(p.hdr, co::NM::LVN_ODFINDITEM) ==> exists|found: Option<u32>|
                func.ensures((p,), found) && res == Some(Self::spec_found(found)),
    {
        if self.is_for(&p.hdr, co::NM::LVN_ODFINDITEM) {
            let found: Option<u32> = func(p);
            let answer: isize = match found {
                Some(idx) => #[verifier::truncate]
                (idx as isize),
                None => -1,
            };
            assert(func.ensures((p,), found) && answer == Self::spec_found(found));
            Some(answer)
        } else {
            None
        }
    }

    /// The control is about to draw. `func` returns what the control is to do
    /// next; the answer is that value as a number.
    pub fn nm_custom_draw<F: FnOnce(&NMCUSTOMDRAW) -> co::CDRF>(
        &self,
        p: &NMCUSTOMDRAW,
        func: F,
    ) -> (res: Option<isize>)
        requires
            self.spec_is_for(p.hdr, co::NM::CUSTOMDRAW) ==> func.requires((p,)),
        ensures
            !self.spec_is_for(p.hdr, co::NM::CUSTOMDRAW) ==> res is None,
            self.spec_is_for(p.hdr, co::NM::CUSTOMDRAW) ==> exists|cdrf: co::CDRF|
                func.ensures((p,), cdrf) && res == Some(cdrf.0 as isize),
    {
        if self.is_for(&p.hdr, co::NM::CUSTOMDRAW) {
            let cdrf: co::CDRF = func(p);
            Some(#[verifier::truncate] (cdrf.0 as isize))
        } else {
            None
        }
    }

    /// The mouse hovers over an item. The answer is what `func` returns.
    pub fn nm_hover<F: FnOnce() -> i32>(&self, hdr: &NMHDR, func: F) -> (res: Option<isize>)
        requires
            self.spec_is_for(*hdr, co::NM::HOVER) ==> func.requires(()),
        ensures
            !self.spec_is_for(*hdr, co::NM::HOVER) ==> res is None,
            self.spec_is_for(*hdr, co::NM::HOVER) ==> exists|ret: i32|
                func.ensures((), ret) && res == Some(ret as isize),
    {
        if self.is_for(hdr, co::NM::HOVER) {
            let ret: i32 = func();
            Some(ret as isize)
        } else {
            None
        }
    }

    /// An item was clicked with the right mouse button. The answer is what
    /// `func` returns.
    pub fn nm_r_click<F: FnOnce(&NMITEMACTIVATE) -> i32>(
        &self,
        p: &NMITEMACTIVATE,
        func: F,
    ) -> (res: Option<isize>)
        requires
            self.spec_is_for(p.hdr, co::NM::RCLICK) ==> func.requires((p,)),
        ensures
            !self.spec_is_for(p.hdr, co::NM::RCLICK) ==> res is None,
            self.spec_is_for(p.hdr, co::NM::RCLICK) ==> exists|ret: i32|
                func.ensures((p,), ret) && res == Some(ret as isize),
    {
        if self.is_for(&p.hdr, co::NM::RCLICK) {
            let ret: i32 = func(p);
            Some(ret as isize)
        } else {
            None
        }
    }
}

} // verus!

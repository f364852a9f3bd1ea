use vstd::prelude::*;

use crate::co;
use crate::gui::native_controls::tree_view_item::is_item_of;
use crate::gui::native_controls::tree_view_item::TreeViewItem;
use crate::handles::HTREEITEM;
use crate::handles::HWND;
use crate::msg::tvm;

verus! {

/// The handle of the item that a cursor starts on, if it starts on one.
pub open spec fn spec_start(current: Option<TreeViewItem>) -> Option<HTREEITEM> {
    match current {
        Some(item) => Some(item@.1),
        None => None,
    }
}

/// A cursor that walks from one item of a tree view control to the next in a
/// fixed relationship. Once the control has answered that there is no such
/// item, the cursor is done and asks no more.
#[derive(Debug)]
pub struct TreeViewItemIter {
    owner: HWND,
    current: Option<HTREEITEM>,
    relationship: co::TVGN,
    done: bool,
}

impl View for TreeViewItemIter {
    type V = (HWND, Option<HTREEITEM>, co::TVGN, bool);

    /// The window of the control, the item the cursor stands on, the
    /// relationship it follows, and whether it is done.
    closed spec fn view(&self) -> (HWND, Option<HTREEITEM>, co::TVGN, bool) {
        (self.owner, self.current, self.relationship, self.done)
    }
}

impl TreeViewItemIter {
    /// A cursor that stands on `current` and follows `relationship`.
    pub fn new(owner: HWND, current: Option<TreeViewItem>, relationship: co::TVGN) -> (iter: Self)
        ensures
            iter@ == (owner, spec_start(current), relationship, false),
    {
        let first: Option<HTREEITEM> = match current {
            Some(item) => Some(*item.htreeitem()),
            None => None,
        };
        TreeViewItemIter { owner, current: first, relationship, done: false }
    }

    /// The message that asks for the item after the one the cursor stands on.
    pub open spec fn spec_request(&self) -> tvm::GetNextItem {
        tvm::GetNextItem { relationship: self@.2, hitem: self@.1 }
    }

    /// Moves to the next item and returns it, or returns `None` where the
    /// control answers that there is none; the cursor is then done. A cursor
    /// that is done sends nothing and returns `None`.
    pub fn next<S: FnOnce(HWND, tvm::GetNextItem) -> Option<HTREEITEM>>(
        &mut self,
        send: S,
    ) -> (res: Option<TreeViewItem>)
        requires
            !old(self)@.3 ==> send.requires((old(self)@.0, old(self).spec_request())),
        ensures
            final(self)@.0 == old(self)@.0,
            final(self)@.2 == old(self)@.2,
            old(self)@.3 ==> res is None && final(self)@ == old(self)@,
            !old(self)@.3 ==> exists|reply: Option<HTREEITEM>|
                send.ensures((old(self)@.0, old(self).spec_request()), reply) && final(self)@.1
                    == reply && final(self)@.3 == (reply is None) && is_item_of(
                    old(self)@.0,
                    reply,
                    res,
                ),
    {
        if self.done {
            return None;
        }
        let msg: tvm::GetNextItem = tvm::GetNextItem {
            relationship: self.relationship,
            hitem: self.current,
        };
        self.current = send(self.owner, msg);
        let res: Option<TreeViewItem> = match self.current {
            Some(hitem) => Some(TreeViewItem::new(self.owner, hitem)),
            None => {
                self.done = true;
                None
            },
        };
        assert(send.ensures((old(self)@.0, old(self).spec_request()), self.current) && is_item_of(
            old(self)@.0,
            self.current,
            res,
        ));
        res
    }
}

/// A cursor over the children of an item of a tree view control: it asks for
/// the first child of the item, and from then on for the next sibling of the
/// child it stands on. Once the control has answered that there is no such
/// item, the cursor is done and asks no more.
#[derive(Debug)]
pub struct TreeViewChildItemIter {
    owner: HWND,
    current: Option<HTREEITEM>,
    first_pass: bool,
    done: bool,
}

impl View for TreeViewChildItemIter {
    type V = (HWND, Option<HTREEITEM>, bool, bool);

    /// The window of the control, the item the cursor stands on, whether it
    /// still stands on the parent, and whether it is done.
    closed spec fn view(&self) -> (HWND, Option<HTREEITEM>, bool, bool) {
        (self.owner, self.current, self.first_pass, self.done)
    }
}

impl TreeViewChildItemIter {
    /// A cursor that stands on the parent `current`.
    pub fn new(owner: HWND, current: Option<TreeViewItem>) -> (iter: Self)
        ensures
            iter@ == (owner, spec_start(current), true, false),
    {
        let first: Option<HTREEITEM> = match current {
            Some(item) => Some(*item.htreeitem()),
            None => None,
        };
        TreeViewChildItemIter { owner, current: first, first_pass: true, done: false }
    }

    /// The message that asks for the first child of the parent, or for the
    /// child after the one the cursor stands on.
    pub open spec fn spec_request(&self) -> tvm::GetNextItem {
        tvm::GetNextItem {
            relationship: co::TVGN(
                if self@.2 {
                    co::TVGN::CHILD
                } else {
                    co::TVGN::NEXT
                },
            ),
            hitem: self@.1,
        }
    }

    /// Moves to the next child and returns it, or returns `None` where the
    /// control answers that there is none; the cursor is then done. A cursor
    /// that is done sends nothing and returns `None`.
    pub fn next<S: FnOnce(HWND, tvm::GetNextItem) -> Option<HTREEITEM>>(
        &mut self,
        send: S,
    ) -> (res: Option<TreeViewItem>)
        requires
            !old(self)@.3 ==> send.requires((old(self)@.0, old(self).spec_request())),
        ensures
            final(self)@.0 == old(self)@.0,
            old(self)@.3 ==> res is None && final(self)@ == old(self)@,
            !old(self)@.3 ==> exists|reply: Option<HTREEITEM>|
                send.ensures((old(self)@.0, old(self).spec_request()), reply) && final(self)@.1
                    == reply && !final(self)@.2 && final(self)@.3 == (reply is None)
                    && is_item_of(old(self)@.0, reply, res),
    {
        if self.done {
            return None;
        }
        let relationship: u32 = if self.first_pass {
            co::TVGN::CHILD
        } else {
            co::TVGN::NEXT
        };
        let msg: tvm::GetNextItem = tvm::GetNextItem {
            relationship: co::TVGN(relationship),
            hitem: self.current,
        };
        self.current = send(self.owner, msg);
        self.first_pass = false;
        let res: Option<TreeViewItem> = match self.current {
            Some(hitem) => Some(TreeViewItem::new(self.owner, hitem)),
            None => {
                self.done = true;
                None
            },
        };
        assert(send.ensures((old(self)@.0, old(self).spec_request()), self.current) && is_item_of(
            old(self)@.0,
            self.current,
            res,
        ));
        res
    }
}

} // verus!

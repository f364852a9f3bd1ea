use vstd::prelude::*;

use crate::co;
use crate::decl::SysResult;
use crate::gui::native_controls::iterators::TreeViewChildItemIter;
use crate::gui::native_controls::iterators::TreeViewItemIter;
use crate::handles::HTREEITEM;
use crate::handles::HWND;
use crate::msg::tvm;
use crate::structs::text_view;
use crate::structs::TreeitemTvi;
use crate::structs::TVINSERTSTRUCT;
use crate::structs::TVITEMEX;

verus! {

/// How many characters of a label are asked for when it is retrieved.
pub const TEXT_BUF_LEN: i32 = 261;

/// The mask of a new child: the label always, the image if there is an icon,
/// the parameter if there is data.
pub open spec fn spec_child_mask(icon: bool, data: bool) -> u32 {
    let text: u32 = co::TVIF::TEXT;
    let image: u32 = if icon {
        text | co::TVIF::IMAGE
    } else {
        text
    };
    if data {
        image | co::TVIF::PARAM
    } else {
        image
    }
}

/// The mask of a new child, as a number for each case.
pub proof fn lemma_child_mask()
    ensures
        spec_child_mask(false, false) == 0x1,
        spec_child_mask(true, false) == 0x3,
        spec_child_mask(false, true) == 0x5,
        spec_child_mask(true, true) == 0x7,
{
    assert(1u32 | 2u32 == 3u32) by (bit_vector);
    assert(1u32 | 4u32 == 5u32) by (bit_vector);
    assert(3u32 | 4u32 == 7u32) by (bit_vector);
}

/// Whether `res` is the item that a control answered with: the item `reply`
/// of the control whose window is `owner`, or none where the control answered
/// that there is none.
pub open spec fn is_item_of(
    owner: HWND,
    reply: Option<HTREEITEM>,
    res: Option<TreeViewItem>,
) -> bool {
    match reply {
        Some(hitem) => res matches Some(item) && item@ == (owner, hitem),
        None => res is None,
    }
}

/// Whether `res` is the new item that a control answered with: the item
/// `reply` of the control whose window is `owner`, or the failure.
pub open spec fn is_new_item_of(
    owner: HWND,
    reply: SysResult<HTREEITEM>,
    res: SysResult<TreeViewItem>,
) -> bool {
    match reply {
        Ok(hitem) => res matches Ok(item) && item@ == (owner, hitem),
        Err(err) => res matches Err(e) && e == err,
    }
}

/// The parameter in what a control answered: none where the parameter is
/// zero; or the failure.
pub open spec fn spec_param_of(reply: SysResult<TVITEMEX>) -> SysResult<Option<isize>> {
    match reply {
        Ok(tvix) => Ok(
            if tvix.lParam == 0 {
                None
            } else {
                Some(tvix.lParam)
            },
        ),
        Err(err) => Err(err),
    }
}

/// Whether `res` is the label in what a control answered: its text, which is
/// empty where the answer holds none; or the failure.
pub open spec fn is_label_of(reply: SysResult<TVITEMEX>, res: SysResult<String>) -> bool {
    match reply {
        Ok(tvix) => res matches Ok(label) && label@ == match text_view(tvix.pszText) {
            Some(chars) => chars,
            None => Seq::<char>::empty(),
        },
        Err(err) => res matches Err(e) && e == err,
    }
}

/// One item of a tree view control: the window of the control, and the handle
/// of the item.
#[derive(Debug)]
pub struct TreeViewItem {
    owner: HWND,
    hitem: HTREEITEM,
}

impl View for TreeViewItem {
    type V = (HWND, HTREEITEM);

    /// The window of the control, and the handle of the item.
    closed spec fn view(&self) -> (HWND, HTREEITEM) {
        (self.owner, self.hitem)
    }
}

impl TreeViewItem {
    /// The item `hitem` of the control whose window is `owner`.
    pub fn new(owner: HWND, hitem: HTREEITEM) -> (item: TreeViewItem)
        ensures
            item@ == (owner, hitem),
    {
        TreeViewItem { owner, hitem }
    }

    /// Another object for the same item.
    fn raw_clone(&self) -> (item: TreeViewItem)
        ensures
            item@ == self@,
    {
        TreeViewItem { owner: self.owner, hitem: self.hitem }
    }

    /// What is inserted for a new last child of this item with the label
    /// `text`, the icon `icon_index` if there is one, and the parameter `data`
    /// if there is one.
    pub open spec fn spec_add_child(
        &self,
        text: Seq<char>,
        icon_index: Option<u32>,
        data: Option<isize>,
    ) -> (HTREEITEM, TreeitemTvi, (TVITEMEX, Option<Seq<char>>)) {
        (
            self@.1,
            TreeitemTvi::Tvi(co::TVI(co::TVI::LAST)),
            (
                TVITEMEX {
                    mask: co::TVIF(spec_child_mask(icon_index is Some, data is Some)),
                    iImage: match icon_index {
                        Some(icon) => icon as i32,
                        None => 0,
                    },
                    lParam: match data {
                        Some(lparam) => lparam,
                        None => 0,
                    },
                    ..TVITEMEX::spec_default()
                },
                Some(text),
            ),
        )
    }

    /// Adds a new last child with the label `text`, and returns it. The child
    /// has the icon `icon_index`, if there is one, and carries the parameter
    /// `data`, if there is one. A failure of the control comes back as it is.
    pub fn add_child<S: FnOnce(HWND, tvm::InsertItem) -> SysResult<HTREEITEM>>(
        &self,
        text: &str,
        icon_index: Option<u32>,
        data: Option<isize>,
        send: S,
    ) -> (res: SysResult<TreeViewItem>)
        requires
            forall|m: tvm::InsertItem|
                m.item@ == self.spec_add_child(text@, icon_index, data) ==> send.requires(
                    (self@.0, m),
                ),
        ensures
            exists|m: tvm::InsertItem, reply: SysResult<HTREEITEM>|
                m.item@ == self.spec_add_child(text@, icon_index, data) && send.ensures(
                    (self@.0, m),
                    reply,
                ) && is_new_item_of(self@.0, reply, res),
    {
        let mut tvix: TVITEMEX = TVITEMEX::default();
        tvix.mask = co::TVIF(co::TVIF::TEXT);
        tvix.pszText = Some(text.to_owned());

        if let Some(icon) = icon_index {
            tvix.mask = co::TVIF(tvix.mask.0 | co::TVIF::IMAGE);
            tvix.iImage = #[verifier::truncate]
            (icon as i32);
        }
        if let Some(lparam) = data {
            tvix.mask = co::TVIF(tvix.mask.0 | co::TVIF::PARAM);
            tvix.lParam = lparam;
        }
        let tvis: TVINSERTSTRUCT = TVINSERTSTRUCT {
            hParent: self.hitem,
            hInsertAfter: TreeitemTvi::Tvi(co::TVI(co::TVI::LAST)),
            itemex: tvix,
        };
        let msg: tvm::InsertItem = tvm::InsertItem { item: tvis };
        assert(msg.item@ == self.spec_add_child(text@, icon_index, data));
        match send(self.owner, msg) {
            Ok(new_hitem) => Ok(TreeViewItem::new(self.owner, new_hitem)),
            Err(err) => Err(err),
        }
    }

    /// What is asked of the control to learn the parameter of this item.
    pub open spec fn spec_get_param(&self) -> (TVITEMEX, Option<Seq<char>>) {
        (
            TVITEMEX {
                hItem: self@.1,
                mask: co::TVIF(co::TVIF::PARAM),
                ..TVITEMEX::spec_default()
            },
            None,
        )
    }

    /// The parameter that the item carries, or `None` where it carries none,
    /// which a parameter of zero says. A failure of the control comes back as
    /// it is.
    pub fn data_lparam<S: FnOnce(HWND, tvm::GetItem) -> SysResult<TVITEMEX>>(
        &self,
        send: S,
    ) -> (res: SysResult<Option<isize>>)
        requires
            forall|m: tvm::GetItem|
                m.tvitem@ == self.spec_get_param() ==> send.requires((self@.0, m)),
        ensures
            exists|m: tvm::GetItem, reply: SysResult<TVITEMEX>|
                m.tvitem@ == self.spec_get_param() && send.ensures((self@.0, m), reply) && res
                    == spec_param_of(reply),
    {
        let mut tvix: TVITEMEX = TVITEMEX::default();
        tvix.hItem = self.hitem;
        tvix.mask = co::TVIF(co::TVIF::PARAM);
        let msg: tvm::GetItem = tvm::GetItem { tvitem: tvix };
        assert(msg.tvitem@ == self.spec_get_param());

        match send(self.owner, msg) {
            Ok(filled) => if filled.lParam == 0 {
                Ok(None)
            } else {
                Ok(Some(filled.lParam))
            },
            Err(err) => Err(err),
        }
    }

    /// The message that deletes the item.
    pub open spec fn spec_delete(&self) -> tvm::DeleteItem {
        tvm::DeleteItem { hitem: self@.1 }
    }

    /// Deletes the item. The result is the answer of the control.
    pub fn delete<S: FnOnce(HWND, tvm::DeleteItem) -> SysResult<()>>(
        &self,
        send: S,
    ) -> (res: SysResult<()>)
        requires
            send.requires((self@.0, self.spec_delete())),
        ensures
            send.ensures((self@.0, self.spec_delete()), res),
    {
        send(self.owner, tvm::DeleteItem { hitem: self.hitem })
    }

    /// The message that starts editing the label of the item.
    pub open spec fn spec_edit_label(&self) -> tvm::EditLabel {
        tvm::EditLabel { hitem: self@.1 }
    }

    /// Starts editing the label of the item in place. The result is the
    /// answer of the control: the handle of the edit control.
    pub fn edit_label<S: FnOnce(HWND, tvm::EditLabel) -> SysResult<HWND>>(
        &self,
        send: S,
    ) -> (res: SysResult<HWND>)
        requires
            send.requires((self@.0, self.spec_edit_label())),
        ensures
            send.ensures((self@.0, self.spec_edit_label()), res),
    {
        send(self.owner, tvm::EditLabel { hitem: self.hitem })
    }

    /// The message that makes sure that the item is visible.
    pub open spec fn spec_ensure_visible(&self) -> tvm::EnsureVisible {
        tvm::EnsureVisible { hitem: self@.1 }
    }

    /// Makes sure that the item is visible, and tells whether the control
    /// scrolled and expanded nothing: whether its answer is not zero.
    pub fn ensure_visible<S: FnOnce(HWND, tvm::EnsureVisible) -> u32>(
        &self,
        send: S,
    ) -> (res: bool)
        requires
            send.requires((self@.0, self.spec_ensure_visible())),
        ensures
            exists|reply: u32|
                send.ensures((self@.0, self.spec_ensure_visible()), reply) && res == (reply != 0),
    {
        let reply: u32 = send(self.owner, tvm::EnsureVisible { hitem: self.hitem });
        reply != 0
    }

    /// The message that expands the item, or collapses it.
    pub open spec fn spec_expand(&self, expand: bool) -> tvm::Expand {
        tvm::Expand {
            hitem: self@.1,
            action: co::TVE(
                if expand {
                    co::TVE::EXPAND
                } else {
                    co::TVE::COLLAPSE
                },
            ),
        }
    }

    /// Expands the item, or collapses it. The result is the answer of the
    /// control.
    pub fn expand<S: FnOnce(HWND, tvm::Expand) -> SysResult<()>>(
        &self,
        expand: bool,
        send: S,
    ) -> (res: SysResult<()>)
        requires
            send.requires((self@.0, self.spec_expand(expand))),
        ensures
            send.ensures((self@.0, self.spec_expand(expand)), res),
    {
        let action: u32 = if expand {
            co::TVE::EXPAND
        } else {
            co::TVE::COLLAPSE
        };
        send(self.owner, tvm::Expand { hitem: self.hitem, action: co::TVE(action) })
    }

    /// The handle of the item.
    pub fn htreeitem(&self) -> (hitem: &HTREEITEM)
        ensures
            *hitem == self@.1,
    {
        &self.hitem
    }

    /// The message that asks for the expanded state of the item.
    pub open spec fn spec_get_expanded(&self) -> tvm::GetItemState {
        tvm::GetItemState { hitem: self@.1, mask: co::TVIS(co::TVIS::EXPANDED) }
    }

    /// Whether the item is expanded: whether the state that the control
    /// answers has the expanded bit.
    pub fn is_expanded<S: FnOnce(HWND, tvm::GetItemState) -> co::TVIS>(
        &self,
        send: S,
    ) -> (res: bool)
        requires
            send.requires((self@.0, self.spec_get_expanded())),
        ensures
            exists|reply: co::TVIS|
                send.ensures((self@.0, self.spec_get_expanded()), reply) && res == reply.has(
                    co::TVIS(co::TVIS::EXPANDED),
                ),
    {
        let mask: co::TVIS = co::TVIS(co::TVIS::EXPANDED);
        let reply: co::TVIS = send(self.owner, tvm::GetItemState { hitem: self.hitem, mask });
        reply.has(co::TVIS(co::TVIS::EXPANDED))
    }

    /// The message that asks for the parent of the item.
    pub open spec fn spec_get_parent(&self) -> tvm::GetNextItem {
        tvm::GetNextItem { relationship: co::TVGN(co::TVGN::PARENT), hitem: Some(self@.1) }
    }

    /// Whether the item is a root: whether the control answers that it has no
    /// parent.
    pub fn is_root<S: FnOnce(HWND, tvm::GetNextItem) -> Option<HTREEITEM>>(
        &self,
        send: S,
    ) -> (res: bool)
        requires
            send.requires((self@.0, self.spec_get_parent())),
        ensures
            exists|reply: Option<HTREEITEM>|
                send.ensures((self@.0, self.spec_get_parent()), reply) && res == (reply is None),
    {
        self.parent(send).is_none()
    }

    /// A cursor over the children of the item, first to last.
    pub fn iter_children(&self) -> (iter: TreeViewChildItemIter)
        ensures
            iter@ == (self@.0, Some(self@.1), true, false),
    {
        TreeViewChildItemIter::new(self.owner, Some(self.raw_clone()))
    }

    /// A cursor over the siblings that follow the item.
    pub fn iter_next_siblings(&self) -> (iter: TreeViewItemIter)
        ensures
            iter@ == (self@.0, Some(self@.1), co::TVGN(co::TVGN::NEXT), false),
    {
        TreeViewItemIter::new(self.owner, Some(self.raw_clone()), co::TVGN(co::TVGN::NEXT))
    }

    /// A cursor over the siblings that precede the item, nearest first.
    pub fn iter_prev_siblings(&self) -> (iter: TreeViewItemIter)
        ensures
            iter@ == (self@.0, Some(self@.1), co::TVGN(co::TVGN::PREVIOUS), false),
    {
        TreeViewItemIter::new(self.owner, Some(self.raw_clone()), co::TVGN(co::TVGN::PREVIOUS))
    }

    /// The parent of the item, or `None` where the control answers that it
    /// has none.
    pub fn parent<S: FnOnce(HWND, tvm::GetNextItem) -> Option<HTREEITEM>>(
        &self,
        send: S,
    ) -> (res: Option<TreeViewItem>)
        requires
            send.requires((self@.0, self.spec_get_parent())),
        ensures
            exists|reply: Option<HTREEITEM>|
                send.ensures((self@.0, self.spec_get_parent()), reply) && is_item_of(
                    self@.0,
                    reply,
                    res,
                ),
    {
        let msg: tvm::GetNextItem = tvm::GetNextItem {
            relationship: co::TVGN(co::TVGN::PARENT),
            hitem: Some(self.hitem),
        };
        let reply: Option<HTREEITEM> = send(self.owner, msg);
        let res: Option<TreeViewItem> = match reply {
            Some(hitem) => Some(TreeViewItem::new(self.owner, hitem)),
            None => None,
        };
        assert(send.ensures((self@.0, self.spec_get_parent()), reply) && is_item_of(
            self@.0,
            reply,
            res,
        ));
        res
    }

    /// What is set to give the item the label `text`.
    pub open spec fn spec_set_text(&self, text: Seq<char>) -> (TVITEMEX, Option<Seq<char>>) {
        (
            TVITEMEX {
                hItem: self@.1,
                mask: co::TVIF(co::TVIF::TEXT),
                ..TVITEMEX::spec_default()
            },
            Some(text),
        )
    }

    /// Gives the item the label `text`. The result is the answer of the
    /// control.
    pub fn set_text<S: FnOnce(HWND, tvm::SetItem) -> SysResult<()>>(
        &self,
        text: &str,
        send: S,
    ) -> (res: SysResult<()>)
        requires
            forall|m: tvm::SetItem|
                m.tvitem@ == self.spec_set_text(text@) ==> send.requires((self@.0, m)),
        ensures
            exists|m: tvm::SetItem|
                m.tvitem@ == self.spec_set_text(text@) && send.ensures((self@.0, m), res),
    {
        let mut tvix: TVITEMEX = TVITEMEX::default();
        tvix.hItem = self.hitem;
        tvix.mask = co::TVIF(co::TVIF::TEXT);
        tvix.pszText = Some(text.to_owned());
        let msg: tvm::SetItem = tvm::SetItem { tvitem: tvix };
        assert(msg.tvitem@ == self.spec_set_text(text@));

        send(self.owner, msg)
    }

    /// What is asked of the control to learn the label of the item: the
    /// label, into an empty text with room for [`TEXT_BUF_LEN`] characters.
    pub open spec fn spec_get_text(&self) -> (TVITEMEX, Option<Seq<char>>) {
        (
            TVITEMEX {
                hItem: self@.1,
                mask: co::TVIF(co::TVIF::TEXT),
                cchTextMax: TEXT_BUF_LEN,
                ..TVITEMEX::spec_default()
            },
            Some(Seq::<char>::empty()),
        )
    }

    /// The label of the item: the text of the item that the control answers,
    /// which is empty where the answer holds none. A failure of the control
    /// comes back as it is.
    pub fn text<S: FnOnce(HWND, tvm::GetItem) -> SysResult<TVITEMEX>>(
        &self,
        send: S,
    ) -> (res: SysResult<String>)
        requires
            forall|m: tvm::GetItem|
                m.tvitem@ == self.spec_get_text() ==> send.requires((self@.0, m)),
        ensures
            exists|m: tvm::GetItem, reply: SysResult<TVITEMEX>|
                m.tvitem@ == self.spec_get_text() && send.ensures((self@.0, m), reply)
                    && is_label_of(reply, res),
    {
        let mut tvix: TVITEMEX = TVITEMEX::default();
        tvix.hItem = self.hitem;
        tvix.mask = co::TVIF(co::TVIF::TEXT);
        tvix.pszText = Some(String::new());
        tvix.cchTextMax = TEXT_BUF_LEN;
        let msg: tvm::GetItem = tvm::GetItem { tvitem: tvix };
        assert(msg.tvitem@ == self.spec_get_text());

        match send(self.owner, msg) {
            Ok(filled) => match filled.pszText {
                Some(label) => Ok(label),
                None => Ok(String::new()),
            },
            Err(err) => Err(err),
        }
    }
}

} // verus!

//! Messages of the tree view control.

use vstd::prelude::*;

use crate::co;
use crate::handles::HTREEITEM;
use crate::structs::TVINSERTSTRUCT;
use crate::structs::TVITEMEX;

verus! {

/// Inserts an item. The answer is the handle of the new item.
#[derive(Clone, Debug, PartialEq, Eq)]
pub struct InsertItem {
    pub item: TVINSERTSTRUCT,
}

/// Retrieves the attributes of an item that the mask of `tvitem` names. The
/// answer is the item with those attributes filled in.
#[derive(Clone, Debug, PartialEq, Eq)]
pub struct GetItem {
    pub tvitem: TVITEMEX,
}

/// Sets the attributes of an item that the mask of `tvitem` names. The answer
/// says whether it worked.
#[derive(Clone, Debug, PartialEq, Eq)]
pub struct SetItem {
    pub tvitem: TVITEMEX,
}

/// Deletes an item and its children. The answer says whether it worked.
#[derive(Clone, Copy, Debug, PartialEq, Eq, Structural)]
pub struct DeleteItem {
    pub hitem: HTREEITEM,
}

/// Starts editing the label of an item in place. The answer is the handle of
/// the edit control.
#[derive(Clone, Copy, Debug, PartialEq, Eq, Structural)]
pub struct EditLabel {
    pub hitem: HTREEITEM,
}

/// Makes sure that an item is visible. The answer is not zero where the
/// control scrolled and expanded nothing.
#[derive(Clone, Copy, Debug, PartialEq, Eq, Structural)]
pub struct EnsureVisible {
    pub hitem: HTREEITEM,
}

/// Expands or collapses the children of an item. The answer says whether it
/// worked.
#[derive(Clone, Copy, Debug, PartialEq, Eq, Structural)]
pub struct Expand {
    pub hitem: HTREEITEM,
    pub action: co::TVE,
}

/// Retrieves the state of an item, as far as `mask` names it.
#[derive(Clone, Copy, Debug, PartialEq, Eq, Structural)]
pub struct GetItemState {
    pub hitem: HTREEITEM,
    pub mask: co::TVIS,
}

/// Retrieves the item that stands in `relationship` to `hitem`. The answer is
/// its handle, or nothing where there is no such item.
#[derive(Clone, Copy, Debug, PartialEq, Eq, Structural)]
pub struct GetNextItem {
    pub relationship: co::TVGN,
    pub hitem: Option<HTREEITEM>,
}

} // verus!

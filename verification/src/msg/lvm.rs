//! Messages of the list view control.

use vstd::prelude::*;

use crate::structs::LVCOLUMN;

verus! {

/// Sets the attributes of the column at `index`. The answer says whether it
/// worked.
#[derive(Clone, Debug, PartialEq, Eq)]
pub struct SetColumn {
    pub index: u32,
    pub lvcolumn: LVCOLUMN,
}

/// Sets the width of the column at `index`, in pixels. The answer says whether
/// it worked.
#[derive(Clone, Copy, Debug, PartialEq, Eq, Structural)]
pub struct SetColumnWidth {
    pub index: u32,
    pub width: u32,
}

/// Retrieves the attributes of the column at `index` that the mask of
/// `lvcolumn` names. The answer is the column with those attributes filled in.
#[derive(Clone, Debug, PartialEq, Eq)]
pub struct GetColumn {
    pub index: u32,
    pub lvcolumn: LVCOLUMN,
}

/// Retrieves the width of the column at `index`, in pixels.
#[derive(Clone, Copy, Debug, PartialEq, Eq, Structural)]
pub struct GetColumnWidth {
    pub index: u32,
}

} // verus!

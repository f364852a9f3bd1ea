//! Native structures, with addresses and text held as plain values.
//!
//! A structure that carries text has a view made of two parts: the structure
//! with its text taken out, and the text as a sequence of characters.

use vstd::prelude::*;

use crate::co;
use crate::handles::HTREEITEM;
use crate::handles::HWND;

verus! {

/// The characters of a text that may be absent.
pub open spec fn text_view(text: Option<String>) -> Option<Seq<char>> {
    match text {
        Some(s) => Some(s@),
        None => None,
    }
}

/// A point.
#[derive(Clone, Copy, Debug, PartialEq, Eq, Structural)]
pub struct POINT {
    pub x: i32,
    pub y: i32,
}

impl POINT {
    /// The point at `x`, `y`.
    pub fn new(x: i32, y: i32) -> (pt: POINT)
        ensures
            pt.x == x,
            pt.y == y,
    {
        POINT { x, y }
    }
}

/// A width and a height.
#[derive(Clone, Copy, Debug, PartialEq, Eq, Structural)]
pub struct SIZE {
    pub cx: i32,
    pub cy: i32,
}

impl SIZE {
    /// The size `cx` by `cy`.
    pub fn new(cx: i32, cy: i32) -> (sz: SIZE)
        ensures
            sz.cx == cx,
            sz.cy == cy,
    {
        SIZE { cx, cy }
    }
}

/// A rectangle.
#[derive(Clone, Copy, Debug, PartialEq, Eq, Structural)]
pub struct RECT {
    pub left: i32,
    pub top: i32,
    pub right: i32,
    pub bottom: i32,
}

/// A column of a list view control.
#[derive(Clone, Debug, PartialEq, Eq)]
pub struct LVCOLUMN {
    pub mask: co::LVCF,
    pub fmt: i32,
    pub cx: i32,
    /// The title.
    pub pszText: Option<String>,
    /// How many characters of title are asked for, where the title is
    /// retrieved.
    pub cchTextMax: i32,
    pub iSubItem: i32,
    pub iImage: i32,
    pub iOrder: i32,
    pub cxMin: i32,
    pub cxDefault: i32,
    pub cxIdeal: i32,
}

impl LVCOLUMN {
    /// The column with every field zero and no title.
    pub open spec fn spec_default() -> LVCOLUMN {
        LVCOLUMN {
            mask: co::LVCF(0),
            fmt: 0,
            cx: 0,
            pszText: None,
            cchTextMax: 0,
            iSubItem: 0,
            iImage: 0,
            iOrder: 0,
            cxMin: 0,
            cxDefault: 0,
            cxIdeal: 0,
        }
    }
}

impl View for LVCOLUMN {
    type V = (LVCOLUMN, Option<Seq<char>>);

    open spec fn view(&self) -> (LVCOLUMN, Option<Seq<char>>) {
        (LVCOLUMN { pszText: None, ..*self }, text_view(self.pszText))
    }
}

impl Default for LVCOLUMN {
    fn default() -> (lvc: LVCOLUMN)
        ensures
            lvc == LVCOLUMN::spec_default(),
    {
        LVCOLUMN {
            mask: co::LVCF(0),
            fmt: 0,
            cx: 0,
            pszText: None,
            cchTextMax: 0,
            iSubItem: 0,
            iImage: 0,
            iOrder: 0,
            cxMin: 0,
            cxDefault: 0,
            cxIdeal: 0,
        }
    }
}

/// An item of a tree view control.
#[derive(Clone, Debug, PartialEq, Eq)]
pub struct TVITEMEX {
    pub mask: co::TVIF,
    pub hItem: HTREEITEM,
    pub state: co::TVIS,
    pub stateMask: co::TVIS,
    /// The label.
    pub pszText: Option<String>,
    /// How many characters of label are asked for, where the label is
    /// retrieved.
    pub cchTextMax: i32,
    pub iImage: i32,
    pub iSelectedImage: i32,
    pub cChildren: i32,
    pub lParam: isize,
    pub iIntegral: i32,
    pub uStateEx: u32,
    pub hwnd: HWND,
    pub iExpandedImage: i32,
    pub iReserved: i32,
}

impl TVITEMEX {
    /// The item with every field zero and no label.
    pub open spec fn spec_default() -> TVITEMEX {
        TVITEMEX {
            mask: co::TVIF(0),
            hItem: HTREEITEM(0),
            state: co::TVIS(0),
            stateMask: co::TVIS(0),
            pszText: None,
            cchTextMax: 0,
            iImage: 0,
            iSelectedImage: 0,
            cChildren: 0,
            lParam: 0,
            iIntegral: 0,
            uStateEx: 0,
            hwnd: HWND(0),
            iExpandedImage: 0,
            iReserved: 0,
        }
    }
}

impl View for TVITEMEX {
    type V = (TVITEMEX, Option<Seq<char>>);

    open spec fn view(&self) -> (TVITEMEX, Option<Seq<char>>) {
        (TVITEMEX { pszText: None, ..*self }, text_view(self.pszText))
    }
}

impl Default for TVITEMEX {
    fn default() -> (tvix: TVITEMEX)
        ensures
            tvix == TVITEMEX::spec_default(),
    {
        TVITEMEX {
            mask: co::TVIF(0),
            hItem: HTREEITEM(0),
            state: co::TVIS(0),
            stateMask: co::TVIS(0),
            pszText: None,
            cchTextMax: 0,
            iImage: 0,
            iSelectedImage: 0,
            cChildren: 0,
            lParam: 0,
            iIntegral: 0,
            uStateEx: 0,
            hwnd: HWND(0),
            iExpandedImage: 0,
            iReserved: 0,
        }
    }
}

/// Where a new tree view item goes among its siblings: after a given item, or
/// at a named place.
#[derive(Clone, Copy, Debug, PartialEq, Eq, Structural)]
pub enum TreeitemTvi {
    Treeitem(HTREEITEM),
    Tvi(co::TVI),
}

/// What it takes to insert an item into a tree view control.
#[derive(Clone, Debug, PartialEq, Eq)]
pub struct TVINSERTSTRUCT {
    pub hParent: HTREEITEM,
    pub hInsertAfter: TreeitemTvi,
    pub itemex: TVITEMEX,
}

impl View for TVINSERTSTRUCT {
    type V = (HTREEITEM, TreeitemTvi, (TVITEMEX, Option<Seq<char>>));

    open spec fn view(&self) -> (HTREEITEM, TreeitemTvi, (TVITEMEX, Option<Seq<char>>)) {
        (self.hParent, self.hInsertAfter, self.itemex@)
    }
}

/// The head of every notification: who sent it, and what it says.
#[derive(Clone, Copy, Debug, PartialEq, Eq, Structural)]
pub struct NMHDR {
    pub hwndFrom: HWND,
    pub idFrom: usize,
    pub code: co::NM,
}

/// What a list view control sends when an item is activated or clicked.
#[derive(Clone, Copy, Debug, PartialEq, Eq, Structural)]
pub struct NMITEMACTIVATE {
    pub hdr: NMHDR,
    pub iItem: i32,
    pub iSubItem: i32,
    pub uNewState: u32,
    pub uOldState: u32,
    pub uChanged: u32,
    pub ptAction: POINT,
    pub lParam: isize,
    pub uKeyFlags: u32,
}

/// What a control sends at each stage of drawing itself.
#[derive(Clone, Copy, Debug, PartialEq, Eq, Structural)]
pub struct NMCUSTOMDRAW {
    pub hdr: NMHDR,
    pub dwDrawStage: u32,
    pub hdc: usize,
    pub rc: RECT,
    pub dwItemSpec: usize,
    pub uItemState: u32,
    pub lItemlParam: isize,
}

/// What to look for in a list view control.
#[derive(Clone, Debug, PartialEq, Eq)]
pub struct LVFINDINFO {
    pub flags: u32,
    pub psz: Option<String>,
    pub lParam: isize,
    pub pt: POINT,
    pub vkDirection: u32,
}

/// What a virtual list view control sends when its owner has to find an item.
#[derive(Clone, Debug, PartialEq, Eq)]
pub struct NMLVFINDITEM {
    pub hdr: NMHDR,
    pub iStart: i32,
    pub lvfi: LVFINDINFO,
}

} // verus!

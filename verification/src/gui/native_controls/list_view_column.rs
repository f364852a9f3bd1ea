use vstd::prelude::*;

use crate::co;
use crate::decl::SysResult;
use crate::handles::HWND;
use crate::msg::lvm;
use crate::structs::text_view;
use crate::structs::LVCOLUMN;
use crate::structs::RECT;
use crate::structs::SIZE;

verus! {

/// How many characters of a title are asked for when it is retrieved.
pub const TITLE_BUF_LEN: i32 = 128;

/// The width that the columns other than the one at `index` take up together.
pub open spec fn spec_cx_used(widths: Seq<u32>, index: int) -> int
    decreases widths.len(),
{
    if widths.len() == 0 {
        0
    } else {
        spec_cx_used(widths.drop_last(), index) + if widths.len() - 1 == index {
            0
        } else {
            widths.last() as int
        }
    }
}

/// The width used grows, or stays, with each column that is taken in.
pub proof fn lemma_cx_used_grows(widths: Seq<u32>, index: int, n: int)
    requires
        0 <= n <= widths.len(),
    ensures
        0 <= spec_cx_used(widths.take(n), index) <= spec_cx_used(widths, index),
    decreases widths.len() - n,
{
    if n == widths.len() {
        assert(widths.take(n) =~= widths);
        lemma_cx_used_is_not_negative(widths, index);
    } else {
        assert(widths.take(n + 1).drop_last() =~= widths.take(n));
        lemma_cx_used_is_not_negative(widths.take(n), index);
        lemma_cx_used_grows(widths, index, n + 1);
    }
}

/// The width used is never negative.
pub proof fn lemma_cx_used_is_not_negative(widths: Seq<u32>, index: int)
    ensures
        0 <= spec_cx_used(widths, index),
    decreases widths.len(),
{
    if widths.len() > 0 {
        lemma_cx_used_is_not_negative(widths.drop_last(), index);
    }
}

/// Whether `res` is the title in what a control answered: its text, which is
/// empty where the answer holds none; or the failure.
pub open spec fn is_title_of(reply: SysResult<LVCOLUMN>, res: SysResult<String>) -> bool {
    match reply {
        Ok(lvc) => res matches Ok(title) && title@ == match text_view(lvc.pszText) {
            Some(chars) => chars,
            None => Seq::<char>::empty(),
        },
        Err(err) => res matches Err(e) && e == err,
    }
}

/// One column of a list view control: the window of the control, and the
/// zero-based index of the column. When columns are added or removed, the
/// same object may stand for another column.
#[derive(Clone, Copy, Debug)]
pub struct ListViewColumn {
    owner: HWND,
    index: u32,
}

impl View for ListViewColumn {
    type V = (HWND, u32);

    /// The window of the control, and the index of the column.
    closed spec fn view(&self) -> (HWND, u32) {
        (self.owner, self.index)
    }
}

impl ListViewColumn {
    /// The column at `index` of the control whose window is `owner`.
    pub fn new(owner: HWND, index: u32) -> (col: ListViewColumn)
        ensures
            col@ == (owner, index),
    {
        ListViewColumn { owner, index }
    }

    /// What is set to give the column the title `text`.
    pub open spec fn spec_set_title(&self, text: Seq<char>) -> (LVCOLUMN, Option<Seq<char>>) {
        (
            LVCOLUMN {
                iSubItem: self@.1 as i32,
                mask: co::LVCF(co::LVCF::TEXT),
                ..LVCOLUMN::spec_default()
            },
            Some(text),
        )
    }

    /// Gives the column the title `text`. The result is the answer of the
    /// control.
    pub fn set_title<S: FnOnce(HWND, lvm::SetColumn) -> SysResult<()>>(
        &self,
        text: &str,
        send: S,
    ) -> (res: SysResult<()>)
        requires
            forall|m: lvm::SetColumn|
                m.index == self@.1 && m.lvcolumn@ == self.spec_set_title(text@) ==> send.requires(
                    (self@.0, m),
                ),
        ensures
            exists|m: lvm::SetColumn|
                m.index == self@.1 && m.lvcolumn@ == self.spec_set_title(text@) && send.ensures(
                    (self@.0, m),
                    res,
                ),
    {
        let mut lvc: LVCOLUMN = LVCOLUMN::default();
        lvc.iSubItem = #[verifier::truncate]
        (self.index as i32);
        lvc.mask = co::LVCF(co::LVCF::TEXT);
        lvc.pszText = Some(text.to_owned());

        let msg: lvm::SetColumn = lvm::SetColumn { index: self.index, lvcolumn: lvc };
        assert(msg.lvcolumn@ == self.spec_set_title(text@));
        send(self.owner, msg)
    }

    /// A size that is `width` wide and has no height.
    pub open spec fn spec_width_size(width: u32) -> SIZE {
        SIZE { cx: width as i32, cy: 0 }
    }

    /// The message that makes the column `cx` wide.
    pub open spec fn spec_set_width(&self, cx: u32) -> lvm::SetColumnWidth {
        lvm::SetColumnWidth { index: self@.1, width: cx }
    }

    /// Whether `res` is what setting the width comes to once the size has
    /// been adjusted, or could not be: with the adjusted size `col_cx`, the
    /// answer of the control to the message that makes the column as wide as
    /// that; with a failure of the adjustment, that failure.
    pub open spec fn spec_width_set<S: FnOnce(HWND, lvm::SetColumnWidth) -> SysResult<()>>(
        &self,
        adjusted: SysResult<SIZE>,
        send: S,
        res: SysResult<()>,
    ) -> bool {
        match adjusted {
            Ok(col_cx) => send.ensures((self@.0, self.spec_set_width(col_cx.cx as u32)), res),
            Err(err) => res == Err::<(), co::ERROR>(err),
        }
    }

    /// Gives the column the width `width`, adjusted to the resolution of the
    /// screen: `multiply_dpi` adjusts a size that is `width` wide, and the
    /// control is told to make the column as wide as the adjusted size. A
    /// failure of the adjustment comes back as it is, and nothing is sent;
    /// otherwise the result is the answer of the control.
    pub fn set_width<
        D: FnOnce(SIZE) -> SysResult<SIZE>,
        S: FnOnce(HWND, lvm::SetColumnWidth) -> SysResult<()>,
    >(
        &self,
        width: u32,
        multiply_dpi: D,
        send: S,
    ) -> (res: SysResult<()>)
        requires
            multiply_dpi.requires((Self::spec_width_size(width),)),
            forall|cx: u32| send.requires((self@.0, self.spec_set_width(cx))),
        ensures
            exists|adjusted: SysResult<SIZE>|
                #![trigger multiply_dpi.ensures((Self::spec_width_size(width),), adjusted)]
                multiply_dpi.ensures((Self::spec_width_size(width),), adjusted)
                    && self.spec_width_set(adjusted, send, res),
    {
        let size: SIZE = SIZE::new(#[verifier::truncate] (width as i32), 0);
        match multiply_dpi(size) {
            Ok(col_cx) => {
                let cx: u32 = #[verifier::truncate]
                (col_cx.cx as u32);
                assert(send.requires((self@.0, self.spec_set_width(cx))));
                send(self.owner, lvm::SetColumnWidth { index: self.index, width: cx })
            },
            Err(err) => Err(err),
        }
    }

    /// The message that makes the column as wide as what the other columns
    /// leave of a control whose client area is `rc`, where `widths` holds the
    /// width of every column.
    pub open spec fn spec_fill(&self, widths: Seq<u32>, rc: RECT) -> lvm::SetColumnWidth {
        self.spec_set_width((rc.right - spec_cx_used(widths, self@.1 as int)) as u32)
    }

    /// Makes the column as wide as what the other columns leave of the
    /// control, where `widths` holds the width of every column, in their
    /// order, and `rc` is the client area of the control. The other columns
    /// fit into the control. Where the control has no column, nothing is sent
    /// and the result is `Ok`; otherwise the result is the answer of the
    /// control.
    pub fn set_width_to_fill<S: FnOnce(HWND, lvm::SetColumnWidth) -> SysResult<()>>(
        &self,
        widths: &Vec<u32>,
        rc: RECT,
        send: S,
    ) -> (res: SysResult<()>)
        requires
            widths.len() > 0 ==> spec_cx_used(widths@, self@.1 as int) <= rc.right,
            widths.len() > 0 ==> send.requires((self@.0, self.spec_fill(widths@, rc))),
        ensures
            widths.len() == 0 ==> res == Ok::<(), co::ERROR>(()),
            widths.len() > 0 ==> send.ensures((self@.0, self.spec_fill(widths@, rc)), res),
    {
        let num_cols: usize = widths.len();
        if num_cols > 0 {
            let mut cx_used: u32 = 0;
            let mut i: usize = 0;
            while i < num_cols
                invariant
                    num_cols == widths.len(),
                    0 <= i <= num_cols,
                    cx_used == spec_cx_used(widths@.take(i as int), self@.1 as int),
                    spec_cx_used(widths@, self@.1 as int) <= rc.right,
                decreases num_cols - i,
            {
                proof {
                    assert(widths@.take(i + 1).drop_last() =~= widths@.take(i as int));
                    lemma_cx_used_grows(widths@, self@.1 as int, i + 1);
                }
                if i != self.index as usize {
                    cx_used = cx_used + widths[i];
                }
                i = i + 1;
            }
            proof {
                assert(widths@.take(num_cols as int) =~= widths@);
                lemma_cx_used_is_not_negative(widths@, self@.1 as int);
            }
            let width: u32 = rc.right as u32 - cx_used;
            send(self.owner, lvm::SetColumnWidth { index: self.index, width })
        } else {
            Ok(())
        }
    }

    /// What is asked of the control to learn the title of the column: the
    /// title, into an empty text with room for [`TITLE_BUF_LEN`] characters.
    pub open spec fn spec_get_title(&self) -> (LVCOLUMN, Option<Seq<char>>) {
        (
            LVCOLUMN {
                iSubItem: self@.1 as i32,
                mask: co::LVCF(co::LVCF::TEXT),
                cchTextMax: TITLE_BUF_LEN,
                ..LVCOLUMN::spec_default()
            },
            Some(Seq::<char>::empty()),
        )
    }

    /// The title of the column: the text of the column that the control
    /// answers, which is empty where the answer holds none. A failure of the
    /// control comes back as it is.
    pub fn title<S: FnOnce(HWND, lvm::GetColumn) -> SysResult<LVCOLUMN>>(
        &self,
        send: S,
    ) -> (res: SysResult<String>)
        requires
            forall|m: lvm::GetColumn|
                m.index == self@.1 && m.lvcolumn@ == self.spec_get_title() ==> send.requires(
                    (self@.0, m),
                ),
        ensures
            exists|m: lvm::GetColumn, reply: SysResult<LVCOLUMN>|
                m.index == self@.1 && m.lvcolumn@ == self.spec_get_title() && send.ensures(
                    (self@.0, m),
                    reply,
                ) && is_title_of(reply, res),
    {
        let mut lvc: LVCOLUMN = LVCOLUMN::default();
        lvc.iSubItem = #[verifier::truncate]
        (self.index as i32);
        lvc.mask = co::LVCF(co::LVCF::TEXT);
        lvc.pszText = Some(String::new());
        lvc.cchTextMax = TITLE_BUF_LEN;

        let msg: lvm::GetColumn = lvm::GetColumn { index: self.index, lvcolumn: lvc };
        assert(msg.lvcolumn@ == self.spec_get_title());
        match send(self.owner, msg) {
            Ok(filled) => match filled.pszText {
                Some(title) => Ok(title),
                None => Ok(String::new()),
            },
            Err(err) => Err(err),
        }
    }

    /// The message that asks for the width of the column.
    pub open spec fn spec_get_width(&self) -> lvm::GetColumnWidth {
        lvm::GetColumnWidth { index: self@.1 }
    }

    /// The width of the column. The result is the answer of the control.
    pub fn width<S: FnOnce(HWND, lvm::GetColumnWidth) -> SysResult<u32>>(
        &self,
        send: S,
    ) -> (res: SysResult<u32>)
        requires
            send.requires((self@.0, self.spec_get_width())),
        ensures
            send.ensures((self@.0, self.spec_get_width()), res),
    {
        send(self.owner, lvm::GetColumnWidth { index: self.index })
    }
}

} // verus!

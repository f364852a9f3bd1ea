use vstd::prelude::*;

use crate::gui::layout_arranger::Horz;
use crate::gui::layout_arranger::Vert;

verus! {

/// How a control comes to be: made as a new window from its options, or taken
/// from a dialog that already holds it, with the given behaviour on resizing.
#[derive(Debug)]
pub enum OptsResz<T> {
    Wnd(T),
    Dlg((Horz, Vert)),
}

} // verus!

use vstd::prelude::*;

use crate::handles::HWND;

verus! {

/// A window that holds controls. Its handle is null until the window is
/// created.
#[derive(Debug)]
pub struct Base {
    hwnd: HWND,
}

impl View for Base {
    type V = HWND;

    /// The handle of the window.
    closed spec fn view(&self) -> HWND {
        self.hwnd
    }
}

impl Base {
    /// A window with the handle `hwnd`: null for a window that is not created
    /// yet.
    pub fn new(hwnd: HWND) -> (base: Base)
        ensures
            base@ == hwnd,
    {
        Base { hwnd }
    }

    /// The handle of the window.
    pub fn hwnd(&self) -> (hwnd: &HWND)
        ensures
            *hwnd == self@,
    {
        &self.hwnd
    }
}

} // verus!

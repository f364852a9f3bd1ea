//! Native handles, held as plain numbers.

use vstd::prelude::*;

verus! {

/// Handle to a window. Zero is the null handle of a window that does not
/// exist, or does not exist yet.
#[derive(Clone, Copy, Debug, PartialEq, Eq, Structural)]
pub struct HWND(pub usize);

impl HWND {
    /// The null handle.
    pub fn null() -> (hwnd: HWND)
        ensures
            hwnd.0 == 0,
    {
        HWND(0)
    }

    /// Whether this is the null handle.
    pub open spec fn spec_is_null(&self) -> bool {
        self.0 == 0
    }

    /// Whether this is the null handle.
    #[verifier::when_used_as_spec(spec_is_null)]
    pub fn is_null(&self) -> (null: bool)
        ensures
            null == self.spec_is_null(),
    {
        self.0 == 0
    }
}

/// Handle to an item of a tree view control.
#[derive(Clone, Copy, Debug, PartialEq, Eq, Structural)]
pub struct HTREEITEM(pub usize);

} // verus!

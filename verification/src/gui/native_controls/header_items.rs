use vstd::prelude::*;

use crate::gui::native_controls::header::Header;

verus! {

/// The items of a header control.
#[derive(Debug)]
pub struct HeaderItems<'a> {
    owner: &'a Header,
}

impl<'a> HeaderItems<'a> {
    /// The items of `owner`.
    pub fn new(owner: &'a Header) -> (items: HeaderItems<'a>)
        ensures
            items.spec_owner() == owner,
    {
        HeaderItems { owner }
    }

    /// The control whose items these are.
    pub closed spec fn spec_owner(&self) -> &Header {
        self.owner
    }

    /// The control whose items these are.
    pub fn owner(&self) -> (owner: &'a Header)
        ensures
            owner == self.spec_owner(),
    {
        self.owner
    }
}

} // verus!

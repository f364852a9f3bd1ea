use vstd::prelude::*;

verus! {

/// The notifications of one header control, as its parent window sees them.
#[derive(Debug)]
pub struct HeaderEvents {
    ctrl_id: u16,
}

impl View for HeaderEvents {
    type V = u16;

    /// The identifier of the control.
    closed spec fn view(&self) -> u16 {
        self.ctrl_id
    }
}

impl HeaderEvents {
    /// The notifications of the control with the identifier `ctrl_id`.
    pub fn new(ctrl_id: u16) -> (events: HeaderEvents)
        ensures
            events@ == ctrl_id,
    {
        HeaderEvents { ctrl_id }
    }

    /// The identifier of the control.
    pub fn ctrl_id(&self) -> (ctrl_id: u16)
        ensures
            ctrl_id == self@,
    {
        self.ctrl_id
    }
}

} // verus!

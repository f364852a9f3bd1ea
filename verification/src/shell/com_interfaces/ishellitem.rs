use vstd::prelude::*;

use crate::com::iunknown::IUnknown;
use crate::ole::decl::ole_IUnknown;
use crate::ole::decl::ComPtr;

verus! {

/// Handle to an item of the shell, as an enumerator hands it out.
#[derive(Debug)]
pub struct IShellItem(pub IUnknown);

impl IShellItem {
    /// Takes over the one reference that came with `com_ptr`. No call is made.
    pub fn from(com_ptr: ComPtr) -> (obj: IShellItem)
        ensures
            obj.spec_ptr() == com_ptr,
    {
        IShellItem(IUnknown::from(com_ptr))
    }
}

impl ole_IUnknown for IShellItem {
    open spec fn spec_ptr(&self) -> ComPtr {
        self.0@
    }

    fn ptr(&self) -> ComPtr {
        self.0.ppv()
    }
}

} // verus!

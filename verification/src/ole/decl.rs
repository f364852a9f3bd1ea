use vstd::prelude::*;

use crate::co::HRESULT;

verus! {

/// The address of a foreign object: a pointer to a pointer to its dispatch
/// table, held as a plain number. Address zero is the invalid sentinel.
#[derive(Clone, Copy, Debug, PartialEq, Eq, Structural)]
pub struct ComPtr(pub usize);

impl ComPtr {
    /// The invalid sentinel.
    pub fn null() -> (ptr: ComPtr)
        ensures
            ptr.0 == 0,
            ptr.spec_is_null(),
    {
        ComPtr(0)
    }

    /// Whether this is the invalid sentinel.
    pub open spec fn spec_is_null(&self) -> bool {
        self.0 == 0
    }

    /// Whether this is the invalid sentinel.
    #[verifier::when_used_as_spec(spec_is_null)]
    pub fn is_null(&self) -> (null: bool)
        ensures
            null == self.spec_is_null(),
    {
        self.0 == 0
    }
}

/// The outcome of a COM call: a value, or the status code the call failed with.
pub type HrResult<T> = Result<T, HRESULT>;

/// What every COM handle offers: the address of the object it stands for.
pub trait ole_IUnknown {
    /// The address this handle holds.
    spec fn spec_ptr(&self) -> ComPtr;

    /// The address this handle holds; the invalid sentinel once the handle has
    /// given up its object.
    fn ptr(&self) -> (ptr: ComPtr)
        ensures
            ptr == self.spec_ptr(),
    ;
}

} // verus!

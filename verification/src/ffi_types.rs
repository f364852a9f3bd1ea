//! Names of the plain integer types that cross the foreign boundary.

use vstd::prelude::*;

verus! {

/// The raw status code of a COM call.
pub type HRES = u32;

} // verus!

//! The declarations that most callers need, under one path.

use vstd::prelude::*;

use crate::co;

verus! {

/// The outcome of a system call: a value, or the status code the call failed
/// with.
pub type SysResult<T> = Result<T, co::ERROR>;

} // verus!

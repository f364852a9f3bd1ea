use vstd::prelude::*;

verus! {

/// A system status code as a foreign call returns it. Zero is success; every
/// other value names one failure.
#[derive(Clone, Copy, Debug, PartialEq, Eq, Structural)]
pub struct ERROR(pub u32);

impl ERROR {
    /// The operation succeeded.
    pub const S_OK: u32 = 0;
    /// The operation succeeded.
    pub const SUCCESS: u32 = 0;

    /// The status that carries `code`.
    pub fn from(code: u32) -> (err: ERROR)
        ensures
            err.0 == code,
    {
        ERROR(code)
    }

    /// Whether this status is the success status.
    pub fn is_ok(&self) -> (ok: bool)
        ensures
            ok == (self.0 == Self::S_OK),
    {
        self.0 == Self::S_OK
    }

    /// What a foreign call that returned `code` amounts to: success for zero,
    /// and otherwise the error that carries `code`.
    pub open spec fn spec_to_result(code: u32) -> Result<(), ERROR> {
        if code == Self::S_OK {
            Ok(())
        } else {
            Err(ERROR(code))
        }
    }

    /// Turns the status code of a foreign call into a typed result.
    pub fn to_result(code: u32) -> (res: Result<(), ERROR>)
        ensures
            res == Self::spec_to_result(code),
            code == 0 <==> res is Ok,
            res matches Err(err) ==> err.0 == code,
    {
        if code == Self::S_OK {
            Ok(())
        } else {
            Err(ERROR(code))
        }
    }
}

} // verus!

use vstd::prelude::*;

use crate::co::ERROR;
use crate::co::HRESULT;
use crate::ffi_types::HRES;
use crate::ole::decl::HrResult;

verus! {

/// What a call that returned `hr` amounts to when only success counts: `Ok`
/// for zero, and otherwise the error that carries `hr`.
pub open spec fn spec_ok_to_hrresult(hr: HRES) -> HrResult<()> {
    if hr == HRESULT::S_OK {
        Ok(())
    } else {
        Err(HRESULT(hr))
    }
}

/// What a call that returned `hr` amounts to when the no-item sentinel is an
/// answer of its own: `Ok(true)` for zero, `Ok(false)` for the sentinel, and
/// otherwise the error that carries `hr`.
pub open spec fn spec_okfalse_to_hrresult(hr: HRES) -> HrResult<bool> {
    if hr == HRESULT::S_OK {
        Ok(true)
    } else if hr == HRESULT::S_FALSE {
        Ok(false)
    } else {
        Err(HRESULT(hr))
    }
}

/// Turns a raw status code into a typed result. Zero is success; any other
/// code comes back as the error, unchanged.
pub fn ok_to_hrresult(hr: HRES) -> (res: HrResult<()>)
    ensures
        res == spec_ok_to_hrresult(hr),
        hr == 0 <==> res is Ok,
        res matches Err(err) ==> err.0 == hr,
{
    if hr == HRESULT::S_OK {
        Ok(())
    } else {
        Err(HRESULT(hr))
    }
}

/// Turns a raw status code into a typed result, with the no-item sentinel as
/// `Ok(false)`. Any code other than zero and the sentinel comes back as the
/// error, unchanged.
pub fn okfalse_to_hrresult(hr: HRES) -> (res: HrResult<bool>)
    ensures
        res == spec_okfalse_to_hrresult(hr),
        hr == 0 <==> res == Ok::<bool, HRESULT>(true),
        hr == 1 <==> res == Ok::<bool, HRESULT>(false),
        res matches Err(err) ==> err.0 == hr,
{
    if hr == HRESULT::S_OK {
        Ok(true)
    } else if hr == HRESULT::S_FALSE {
        Ok(false)
    } else {
        Err(HRESULT(hr))
    }
}

/// A status code other than zero always comes back as the error that carries
/// exactly that code.
pub proof fn lemma_status_code_round_trip(hr: HRES)
    requires
        hr != 0,
    ensures
        spec_ok_to_hrresult(hr) == Err::<(), HRESULT>(HRESULT(hr)),
        ERROR::spec_to_result(hr) == Err::<(), ERROR>(ERROR(hr)),
        hr != 1 ==> spec_okfalse_to_hrresult(hr) == Err::<bool, HRESULT>(HRESULT(hr)),
{
}

} // verus!

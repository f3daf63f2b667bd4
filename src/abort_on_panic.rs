//! The bridge in abort mode: for operations that are not safe to interrupt,
//! a fault is not recovered from.  Nothing here catches it; it unwinds to the
//! exported function, and unwinding out of an `extern "C"` function aborts
//! the process.

use vstd::prelude::*;

use crate::call::{marshal_result, marshaled};
use crate::error::ExternError;
use crate::into_ffi::IntoFfi;

verus! {

/// Runs `callback` for one boundary call: the slot is set to success before
/// it runs, then to the outcome of its result; the marshaled value, or the
/// default on a domain error, is handed back.
pub fn call_with_result<R: IntoFfi, E, F: FnOnce() -> Result<R, E>>(
    out_error: &mut ExternError,
    callback: F,
) -> (r: R::Value) where ExternError: From<E>
    requires
        callback.requires(()),
    ensures
        exists|res: Result<R, E>|
            callback.ensures((), res) && #[trigger] marshaled(res, *final(out_error), r.deep_view()),
{
    *out_error = ExternError::success();
    let res = callback();
    let ghost called = res;
    let (err, value) = marshal_result(res);
    *out_error = err;
    assert(callback.ensures((), called) && marshaled(called, *out_error, value.deep_view()));
    value
}

} // verus!

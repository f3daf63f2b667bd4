use vstd::prelude::*;

use crate::error::{ExternError, SUCCESS_CODE, is_domain_code};
use crate::into_ffi::IntoFfi;

verus! {

/// Whether `err` and `value` are what a call that produced `result` hands
/// back: on success a success slot and the marshaled value; on a domain error
/// the slot that the caller's mapping made of it, and the default value.
pub open spec fn marshaled<R: IntoFfi, E>(
    result: Result<R, E>,
    err: ExternError,
    value: <R::Value as DeepView>::V,
) -> bool where ExternError: From<E> {
    match result {
        Ok(v) => err.is_success() && value == v.ffi_value_spec(),
        Err(e) => call_ensures(<ExternError as From<E>>::from, (e,), err) && value
            == R::ffi_default_spec(),
    }
}

/// Turns the result of an operation into what the boundary hands back: the
/// state of the error slot, and the boundary value.
pub fn marshal_result<R: IntoFfi, E>(result: Result<R, E>) -> (r: (ExternError, R::Value)) where
    ExternError: From<E>,

    ensures
        marshaled(result, r.0, r.1.deep_view()),
{
    match result {
        Ok(v) => (ExternError::success(), v.into_ffi_value()),
        Err(e) => (ExternError::from(e), R::ffi_default()),
    }
}

/// The slot never hides how a call ended: where the caller's mapping gives
/// every domain error a domain code, the slot reports success exactly when
/// the operation succeeded, whatever value is handed back.
pub proof fn lemma_slot_reports_outcome<R: IntoFfi, E>(
    result: Result<R, E>,
    err: ExternError,
    value: <R::Value as DeepView>::V,
) where ExternError: From<E>
    requires
        marshaled(result, err, value),
        result matches Err(e) ==> forall|x: ExternError|
            call_ensures(<ExternError as From<E>>::from, (e,), x) ==> is_domain_code(x.code),
    ensures
        (err.code == SUCCESS_CODE) <==> result is Ok,
{
    if let Err(e) = result {
        assert(call_ensures(<ExternError as From<E>>::from, (e,), err));
        assert(is_domain_code(err.code));
    }
}

/// How the operation of a call ended, as seen from the containment region.
pub enum CallOutcome<V> {
    /// It returned; its result was marshaled into a slot state and a value.
    Returned(ExternError, V),
    /// It faulted; the description is best effort.
    Panicked(String),
}

/// Settles a call once its operation has ended: writes the slot, and gives the
/// value to hand back, or `None` where the process must abort instead (a
/// fault under abort mode; the slot is then left as it was).
pub fn settle_call<R: IntoFfi>(
    out_error: &mut ExternError,
    outcome: CallOutcome<R::Value>,
    abort_on_panic: bool,
) -> (r: Option<R::Value>)
    ensures
        outcome matches CallOutcome::Returned(err, v) ==> *final(out_error) == err && r == Some(v),
        outcome matches CallOutcome::Panicked(d) ==> (abort_on_panic ==> r is None
            && *final(out_error) == *old(out_error)),
        outcome matches CallOutcome::Panicked(d) ==> (!abort_on_panic ==> *final(out_error)
            == ExternError::panic_spec(d) && r is Some && r->Some_0.deep_view()
            == R::ffi_default_spec()),
{
    match outcome {
        CallOutcome::Returned(err, v) => {
            *out_error = err;
            Some(v)
        },
        CallOutcome::Panicked(description) => {
            if abort_on_panic {
                None
            } else {
                *out_error = ExternError::from_panic(description);
                Some(R::ffi_default())
            }
        },
    }
}

} // verus!

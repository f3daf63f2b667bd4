use vstd::prelude::*;

verus! {

/// The code of a call that succeeded.
pub const SUCCESS_CODE: i32 = 0;

/// The code reserved for a call whose operation faulted (panicked) and was
/// contained at the boundary.
pub const PANIC_CODE: i32 = -1;

/// The code of a structured payload that could not be decoded.
pub const JSON_ERROR_CODE: i32 = -2;

/// The out-of-band outcome of one boundary call.
///
/// `code` is `SUCCESS_CODE` on success, `PANIC_CODE` for a contained fault,
/// and any other value for a domain error; `message` is present exactly when
/// the call failed.
#[derive(Debug)]
pub struct ExternError {
    pub code: i32,
    pub message: Option<String>,
}

/// Whether `code` may stand for a domain error: neither success nor the
/// reserved fault code.
pub open spec fn is_domain_code(code: i32) -> bool {
    code != SUCCESS_CODE && code != PANIC_CODE
}

impl ExternError {
    /// Whether the slot reports success.
    pub open spec fn is_success(&self) -> bool {
        self.code == SUCCESS_CODE && self.message is None
    }

    /// The slot of a contained fault described by `description`.
    pub open spec fn panic_spec(description: String) -> ExternError {
        ExternError { code: PANIC_CODE, message: Some(description) }
    }

    /// The neutral state: no error.
    pub fn success() -> (r: ExternError)
        ensures
            r.is_success(),
    {
        ExternError { code: SUCCESS_CODE, message: None }
    }

    /// A domain error with the given code and message.
    pub fn new_error(code: i32, message: String) -> (r: ExternError)
        requires
            is_domain_code(code),
        ensures
            r.code == code,
            r.message == Some(message),
    {
        ExternError { code, message: Some(message) }
    }

    /// The slot of a contained fault, with its best-effort description.
    pub fn from_panic(description: String) -> (r: ExternError)
        ensures
            r == ExternError::panic_spec(description),
    {
        ExternError { code: PANIC_CODE, message: Some(description) }
    }
}

impl Default for ExternError {
    fn default() -> (r: ExternError)
        ensures
            r.is_success(),
    {
        ExternError::success()
    }
}

} // verus!

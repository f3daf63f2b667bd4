use ffi_support::abort_on_panic::call_with_result;
use ffi_support::call::{marshal_result, settle_call, CallOutcome};
use ffi_support::error::{JSON_ERROR_CODE, PANIC_CODE, SUCCESS_CODE};
use ffi_support::into_ffi::{decode_json_i64s, IntoFfiJsonTag};
use ffi_support::{rust_string_to_c, ExternError, IntoFfi};

#[derive(Debug)]
struct NotFound;

impl From<NotFound> for ExternError {
    fn from(_: NotFound) -> ExternError {
        ExternError::new_error(3, "not found".to_string())
    }
}

fn stale_slot() -> ExternError {
    ExternError::new_error(42, "left over from an earlier call".to_string())
}

#[test]
fn success_value_and_success_slot() {
    let mut err = stale_slot();
    let v = call_with_result(&mut err, || -> Result<u32, NotFound> { Ok(5) });
    assert_eq!(err.code, 0);
    assert!(err.message.is_none());
    assert_eq!(v, 5);
}

#[test]
fn domain_error_fills_the_slot() {
    let mut err = ExternError::success();
    let v = call_with_result(&mut err, || -> Result<u32, NotFound> { Err(NotFound) });
    assert_eq!(err.code, 3);
    assert_eq!(err.message.as_deref(), Some("not found"));
    assert_eq!(v, 0);
    let mut err = ExternError::success();
    let s = call_with_result(&mut err, || -> Result<String, NotFound> { Err(NotFound) });
    assert_eq!(err.code, 3);
    assert!(s.is_none());
}

#[test]
fn default_value_does_not_hide_failure() {
    let mut ok_slot = ExternError::success();
    let ok = call_with_result(&mut ok_slot, || -> Result<u32, NotFound> { Ok(0) });
    let mut err_slot = ExternError::success();
    let failed = call_with_result(&mut err_slot, || -> Result<u32, NotFound> { Err(NotFound) });
    assert_eq!(ok, failed);
    assert_eq!(ok_slot.code, SUCCESS_CODE);
    assert_ne!(err_slot.code, SUCCESS_CODE);
}

#[test]
fn contained_fault_is_reported_and_recovered() {
    let mut err = ExternError::success();
    let v = settle_call::<u32>(&mut err, CallOutcome::Panicked("divide by zero".to_string()), false);
    assert_eq!(v, Some(0));
    assert_eq!(err.code, PANIC_CODE);
    assert!(err.message.as_deref().unwrap().contains("divide by zero"));
    // The process goes on: the next call is settled normally.
    let next = call_with_result(&mut err, || -> Result<u32, NotFound> { Ok(5) });
    assert_eq!(next, 5);
    assert_eq!(err.code, 0);
}

#[test]
fn contained_fault_in_abort_mode_asks_to_abort() {
    let mut err = ExternError::success();
    let v = settle_call::<u32>(&mut err, CallOutcome::Panicked("divide by zero".to_string()), true);
    assert!(v.is_none());
    assert_eq!(err.code, 0);
}

#[test]
fn returned_outcome_is_settled_as_marshaled() {
    let (slot, value) = marshal_result::<u32, NotFound>(Err(NotFound));
    let mut err = ExternError::success();
    let v = settle_call::<u32>(&mut err, CallOutcome::Returned(slot, value), false);
    assert_eq!(v, Some(0));
    assert_eq!(err.code, 3);
}

#[test]
fn integer_sequence_is_json_text() {
    let v: Vec<u32> = vec![1, 2, 3];
    assert_eq!(v.to_json(), "[1,2,3]");
    assert_eq!(v.into_ffi_value(), Some(b"[1,2,3]\0".to_vec()));
}

#[test]
fn json_edge_cases() {
    let empty: Vec<i64> = vec![];
    assert_eq!(empty.to_json(), "[]");
    assert_eq!(vec![-42i64, i64::MIN].to_json(), "[-42,-9223372036854775808]");
    assert_eq!(vec![u64::MAX].to_json(), "[18446744073709551615]");
    assert_eq!(vec![vec![1i32], vec![], vec![-2, 30]].to_json(), "[[1],[],[-2,30]]");
    assert!(<Vec<u32> as IntoFfi>::ffi_default().is_none());
}

#[test]
fn json_round_trip() {
    let v: Vec<i64> = vec![0, -1, 7, i64::MAX, i64::MIN];
    let text = v.to_json();
    assert_eq!(decode_json_i64s(&text).unwrap(), v);
    let empty: Vec<i64> = vec![];
    assert_eq!(decode_json_i64s(&empty.to_json()).unwrap(), empty);
}

#[test]
fn undecodable_payload_is_domain_error() {
    let e = decode_json_i64s("[1,2,").unwrap_err();
    assert_eq!(e.code, JSON_ERROR_CODE);
    assert!(e.message.is_some());
    assert_eq!(decode_json_i64s("{}").unwrap_err().code, JSON_ERROR_CODE);
}

#[test]
fn text_becomes_nul_terminated_buffer() {
    assert_eq!(rust_string_to_c("abc".to_string()), b"abc\0".to_vec());
    assert_eq!(rust_string_to_c(String::new()), vec![0u8]);
    assert_eq!(rust_string_to_c("a\0b".to_string()), vec![b'a', 0xEF, 0xBF, 0xBD, b'b', 0]);
    assert_eq!("h√©".to_string().into_ffi_value(), Some("h√©\0".as_bytes().to_vec()));
    assert!(<String as IntoFfi>::ffi_default().is_none());
}

#[test]
fn option_marshals_as_its_inner_type() {
    assert_eq!(Some(7i32).into_ffi_value(), 7);
    assert_eq!(None::<i32>.into_ffi_value(), 0);
    assert!(None::<String>.into_ffi_value().is_none());
    assert_eq!(Some("x".to_string()).into_ffi_value(), Some(b"x\0".to_vec()));
}

#[test]
fn primitives_marshal_to_themselves() {
    assert_eq!((-3i8).into_ffi_value(), -3);
    assert_eq!(200u8.into_ffi_value(), 200);
    assert_eq!(i16::MIN.into_ffi_value(), i16::MIN);
    assert_eq!(u16::MAX.into_ffi_value(), u16::MAX);
    assert_eq!(u64::MAX.into_ffi_value(), u64::MAX);
    assert_eq!(<i64 as IntoFfi>::ffi_default(), 0);
    assert_eq!(().into_ffi_value(), ());
}

#[test]
fn error_slot_states() {
    let ok = ExternError::success();
    assert_eq!(ok.code, 0);
    assert!(ok.message.is_none());
    let d = ExternError::default();
    assert_eq!(d.code, 0);
    let p = ExternError::from_panic("boom".to_string());
    assert_eq!(p.code, -1);
    assert_eq!(p.message.as_deref(), Some("boom"));
}

//! Support for exposing a library's operations to foreign callers across a
//! C-compatible boundary: per-type marshaling of results, an out-of-band error
//! slot, and the single point that settles each call.  Also holds `Guid`, the
//! compact identifier type used by the libraries behind the boundary.

pub mod abort_on_panic;
pub mod call;
pub mod error;
pub mod guid;
pub mod into_ffi;

pub use error::ExternError;
pub use guid::Guid;
pub use into_ffi::{IntoFfi, rust_string_to_c};

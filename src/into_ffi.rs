use vstd::prelude::*;
use vstd::utf8::*;
use vstd::string::*;

use crate::error::{ExternError, JSON_ERROR_CODE};

verus! {

/// A type whose values can be handed back over the boundary.
///
/// `Value` is the boundary-safe representation.  Every implementation has a
/// default value, returned when a call fails, and a conversion of a value into
/// its representation.  The default of a type may equal a converted value, so
/// a caller tells failure from success by the error slot alone.
pub trait IntoFfi: Sized {
    type Value: DeepView;

    /// The value returned in place of a result when a call fails.
    spec fn ffi_default_spec() -> <Self::Value as DeepView>::V;

    /// The representation of `self`.
    spec fn ffi_value_spec(self) -> <Self::Value as DeepView>::V;

    fn ffi_default() -> (r: Self::Value)
        ensures
            r.deep_view() == Self::ffi_default_spec(),
    ;

    fn into_ffi_value(self) -> (r: Self::Value)
        ensures
            r.deep_view() == self.ffi_value_spec(),
    ;
}

impl IntoFfi for () {
    type Value = ();

    open spec fn ffi_default_spec() -> () {
        ()
    }

    open spec fn ffi_value_spec(self) -> () {
        self
    }

    fn ffi_default() {
    }

    fn into_ffi_value(self) {
        self
    }
}

impl IntoFfi for i8 {
    type Value = i8;

    open spec fn ffi_default_spec() -> i8 {
        0
    }

    open spec fn ffi_value_spec(self) -> i8 {
        self
    }

    fn ffi_default() -> i8 {
        0
    }

    fn into_ffi_value(self) -> i8 {
        self
    }
}

impl IntoFfi for u8 {
    type Value = u8;

    open spec fn ffi_default_spec() -> u8 {
        0
    }

    open spec fn ffi_value_spec(self) -> u8 {
        self
    }

    fn ffi_default() -> u8 {
        0
    }

    fn into_ffi_value(self) -> u8 {
        self
    }
}

impl IntoFfi for i16 {
    type Value = i16;

    open spec fn ffi_default_spec() -> i16 {
        0
    }

    open spec fn ffi_value_spec(self) -> i16 {
        self
    }

    fn ffi_default() -> i16 {
        0
    }

    fn into_ffi_value(self) -> i16 {
        self
    }
}

impl IntoFfi for u16 {
    type Value = u16;

    open spec fn ffi_default_spec() -> u16 {
        0
    }

    open spec fn ffi_value_spec(self) -> u16 {
        self
    }

    fn ffi_default() -> u16 {
        0
    }

    fn into_ffi_value(self) -> u16 {
        self
    }
}

impl IntoFfi for i32 {
    type Value = i32;

    open spec fn ffi_default_spec() -> i32 {
        0
    }

    open spec fn ffi_value_spec(self) -> i32 {
        self
    }

    fn ffi_default() -> i32 {
        0
    }

    fn into_ffi_value(self) -> i32 {
        self
    }
}

impl IntoFfi for u32 {
    type Value = u32;

    open spec fn ffi_default_spec() -> u32 {
        0
    }

    open spec fn ffi_value_spec(self) -> u32 {
        self
    }

    fn ffi_default() -> u32 {
        0
    }

    fn into_ffi_value(self) -> u32 {
        self
    }
}

impl IntoFfi for i64 {
    type Value = i64;

    open spec fn ffi_default_spec() -> i64 {
        0
    }

    open spec fn ffi_value_spec(self) -> i64 {
        self
    }

    fn ffi_default() -> (r: i64) {
        let r: i64 = 0;
        assert(r.deep_view() == Self::ffi_default_spec());
        r
    }

    fn into_ffi_value(self) -> (r: i64) {
        assert(self.deep_view() == self.ffi_value_spec());
        self
    }
}

impl IntoFfi for u64 {
    type Value = u64;

    open spec fn ffi_default_spec() -> u64 {
        0
    }

    open spec fn ffi_value_spec(self) -> u64 {
        self
    }

    fn ffi_default() -> u64 {
        0
    }

    fn into_ffi_value(self) -> u64 {
        self
    }
}

// ----- Text -----

/// What a byte of text becomes in a NUL-terminated buffer: a NUL byte, which
/// would end the buffer early, is replaced by the UTF-8 encoding of U+FFFD.
pub open spec fn nul_substitute(b: u8) -> Seq<u8> {
    if b == 0 {
        seq![0xEFu8, 0xBFu8, 0xBDu8]
    } else {
        seq![b]
    }
}

/// The bytes `b` with every NUL byte substituted.
pub open spec fn without_nul(b: Seq<u8>) -> Seq<u8>
    decreases b.len(),
{
    if b.len() == 0 {
        Seq::empty()
    } else {
        without_nul(b.drop_last()) + nul_substitute(b.last())
    }
}

/// The NUL-terminated UTF-8 buffer that hands `text` over the boundary.
pub open spec fn c_buffer(text: Seq<char>) -> Seq<u8> {
    without_nul(encode_utf8(text)) + seq![0u8]
}

/// Substituting leaves no NUL byte.
proof fn lemma_without_nul_has_no_nul(b: Seq<u8>)
    ensures
        forall|i: int| 0 <= i < without_nul(b).len() ==> #[trigger] without_nul(b)[i] != 0,
    decreases b.len(),
{
    if b.len() > 0 {
        lemma_without_nul_has_no_nul(b.drop_last());
        let head = without_nul(b.drop_last());
        assert forall|i: int| 0 <= i < without_nul(b).len() implies #[trigger] without_nul(b)[i]
            != 0 by {
            if i >= head.len() {
                assert(without_nul(b)[i] == nul_substitute(b.last())[i - head.len()]);
            } else {
                assert(without_nul(b)[i] == head[i]);
            }
        }
    }
}

/// The owned, NUL-terminated buffer for `s`.  It never fails: a NUL character,
/// which the buffer cannot hold, becomes U+FFFD.
pub fn rust_string_to_c(s: String) -> (r: Vec<u8>)
    ensures
        r@ == c_buffer(s@),
        r@.len() > 0 && r@.last() == 0,
        forall|i: int| 0 <= i < r@.len() - 1 ==> #[trigger] r@[i] != 0,
{
    let bytes = s.as_str().as_bytes();
    let mut out: Vec<u8> = Vec::new();
    let mut i: usize = 0;
    while i < bytes.len()
        invariant
            i <= bytes@.len(),
            bytes@ == encode_utf8(s@),
            out@ == without_nul(bytes@.subrange(0, i as int)),
        decreases bytes.len() - i,
    {
        proof {
            assert(bytes@.subrange(0, i + 1).drop_last() =~= bytes@.subrange(0, i as int));
        }
        if bytes[i] == 0 {
            out.push(0xEF);
            out.push(0xBF);
            out.push(0xBD);
        } else {
            out.push(bytes[i]);
        }
        i += 1;
    }
    assert(bytes@.subrange(0, bytes@.len() as int) =~= bytes@);
    proof {
        lemma_without_nul_has_no_nul(bytes@);
    }
    out.push(0);
    out
}

/// Text is handed over as an owned NUL-terminated buffer; `None` stands for
/// the null pointer.
impl IntoFfi for String {
    type Value = Option<Vec<u8>>;

    open spec fn ffi_default_spec() -> Option<Seq<u8>> {
        None
    }

    open spec fn ffi_value_spec(self) -> Option<Seq<u8>> {
        Some(c_buffer(self@))
    }

    fn ffi_default() -> Option<Vec<u8>> {
        None
    }

    fn into_ffi_value(self) -> Option<Vec<u8>> {
        let b = rust_string_to_c(self);
        assert(b.deep_view() =~= b@);
        Some(b)
    }
}

/// An absent value is handed over as the default of `T`, so absence and a
/// failed call look alike: the error slot tells them apart.
impl<T: IntoFfi> IntoFfi for Option<T> {
    type Value = T::Value;

    open spec fn ffi_default_spec() -> <T::Value as DeepView>::V {
        T::ffi_default_spec()
    }

    open spec fn ffi_value_spec(self) -> <T::Value as DeepView>::V {
        match self {
            Some(v) => v.ffi_value_spec(),
            None => T::ffi_default_spec(),
        }
    }

    fn ffi_default() -> T::Value {
        T::ffi_default()
    }

    fn into_ffi_value(self) -> T::Value {
        match self {
            Some(v) => v.into_ffi_value(),
            None => T::ffi_default(),
        }
    }
}

// ----- Structured payloads -----

/// The decimal digit `d`, which lies in `0..10`.
pub open spec fn digit_char(d: int) -> char {
    seq!['0', '1', '2', '3', '4', '5', '6', '7', '8', '9'][d]
}

/// The decimal digits of `n`, without leading zeros.
pub open spec fn decimal(n: nat) -> Seq<char>
    decreases n,
{
    if n < 10 {
        seq![digit_char(n as int)]
    } else {
        decimal(n / 10) + seq![digit_char(n as int % 10)]
    }
}

/// An integer as JSON writes it: its decimal digits, after a `-` when it is
/// negative.
pub open spec fn int_text(n: int) -> Seq<char> {
    if n < 0 {
        seq!['-'] + decimal((-n) as nat)
    } else {
        decimal(n as nat)
    }
}

/// A type whose values can be written as JSON, so that a sequence of them is
/// handed over as one JSON array.
pub trait IntoFfiJsonTag: IntoFfi {
    /// The compact JSON text of `self`.
    spec fn json_spec(&self) -> Seq<char>;

    fn to_json(&self) -> (r: String)
        ensures
            r@ == self.json_spec(),
    ;
}

/// The JSON texts of `items`, separated by commas.
pub open spec fn json_items<T: IntoFfiJsonTag>(items: Seq<T>) -> Seq<char>
    decreases items.len(),
{
    if items.len() == 0 {
        Seq::empty()
    } else if items.len() == 1 {
        items[0].json_spec()
    } else {
        json_items(items.drop_last()) + seq![','] + items.last().json_spec()
    }
}

/// The compact JSON array of `items`.
pub open spec fn json_array<T: IntoFfiJsonTag>(items: Seq<T>) -> Seq<char> {
    seq!['['] + json_items(items) + seq![']']
}

/// Relies on `serde_json::to_string` on an `i64`: it cannot fail, and writes
/// the number in decimal (through `itoa`), with a `-` when it is negative.
#[verifier::external_body]
fn json_of_i64(v: i64) -> (r: Result<String, String>)
    ensures
        r is Ok,
        r->Ok_0@ == int_text(v as int),
{
    serde_json::to_string(&v).map_err(|e| e.to_string())
}

/// Relies on `serde_json::to_string` on a `u64`: it cannot fail, and writes
/// the number in decimal (through `itoa`).
#[verifier::external_body]
fn json_of_u64(v: u64) -> (r: Result<String, String>)
    ensures
        r is Ok,
        r->Ok_0@ == int_text(v as int),
{
    serde_json::to_string(&v).map_err(|e| e.to_string())
}

fn text_of_i64(v: i64) -> (r: String)
    ensures
        r@ == int_text(v as int),
{
    match json_of_i64(v) {
        Ok(s) => s,
        Err(_) => {
            proof {
                assert(false);
            }
            String::new()
        },
    }
}

fn text_of_u64(v: u64) -> (r: String)
    ensures
        r@ == int_text(v as int),
{
    match json_of_u64(v) {
        Ok(s) => s,
        Err(_) => {
            proof {
                assert(false);
            }
            String::new()
        },
    }
}

impl IntoFfiJsonTag for i32 {
    open spec fn json_spec(&self) -> Seq<char> {
        int_text(*self as int)
    }

    fn to_json(&self) -> String {
        text_of_i64(*self as i64)
    }
}

impl IntoFfiJsonTag for u32 {
    open spec fn json_spec(&self) -> Seq<char> {
        int_text(*self as int)
    }

    fn to_json(&self) -> String {
        text_of_u64(*self as u64)
    }
}

impl IntoFfiJsonTag for i64 {
    open spec fn json_spec(&self) -> Seq<char> {
        int_text(*self as int)
    }

    fn to_json(&self) -> String {
        text_of_i64(*self)
    }
}

impl IntoFfiJsonTag for u64 {
    open spec fn json_spec(&self) -> Seq<char> {
        int_text(*self as int)
    }

    fn to_json(&self) -> String {
        text_of_u64(*self)
    }
}

/// A sequence is written as a JSON array of its items.
impl<T: IntoFfiJsonTag> IntoFfiJsonTag for Vec<T> {
    open spec fn json_spec(&self) -> Seq<char> {
        json_array(self@)
    }

    fn to_json(&self) -> (r: String) {
        proof {
            reveal_strlit("[");
        }
        let mut out = String::from_str("[");
        let mut i: usize = 0;
        while i < self.len()
            invariant
                i <= self@.len(),
                out@ == seq!['['] + json_items(self@.subrange(0, i as int)),
            decreases self.len() - i,
        {
            let ghost before = out@;
            if i > 0 {
                out.append(",");
            }
            let ghost mid = out@;
            let item = self[i].to_json();
            out.append(item.as_str());
            proof {
                reveal_strlit(",");
                let done = self@.subrange(0, i as int + 1);
                assert(done.len() == i + 1);
                assert(done.drop_last() =~= self@.subrange(0, i as int));
                assert(done.last() == self@[i as int]);
                if i == 0 {
                    assert(mid == before);
                    assert(json_items(done) == self@[0].json_spec());
                } else {
                    assert(mid =~= before + seq![',']);
                    assert(json_items(done) == json_items(done.drop_last()) + seq![',']
                        + done.last().json_spec());
                }
                assert(out@ =~= seq!['['] + json_items(done));
            }
            i += 1;
        }
        out.append("]");
        proof {
            reveal_strlit("]");
            assert(self@.subrange(0, self@.len() as int) =~= self@);
        }
        out
    }
}

/// A sequence is handed over as one owned buffer holding its JSON array; the
/// default is the null pointer.
impl<T: IntoFfiJsonTag> IntoFfi for Vec<T> {
    type Value = Option<Vec<u8>>;

    open spec fn ffi_default_spec() -> Option<Seq<u8>> {
        None
    }

    open spec fn ffi_value_spec(self) -> Option<Seq<u8>> {
        Some(c_buffer(json_array(self@)))
    }

    fn ffi_default() -> Option<Vec<u8>> {
        None
    }

    fn into_ffi_value(self) -> Option<Vec<u8>> {
        let b = rust_string_to_c(self.to_json());
        assert(b.deep_view() =~= b@);
        Some(b)
    }
}

/// Relies on `serde_json::from_str` into a `Vec<i64>`: the compact JSON array
/// of a sequence of integers parses back to that sequence.
#[verifier::external_body]
fn i64s_from_json(text: &str) -> (r: Result<Vec<i64>, String>)
    ensures
        forall|v: Seq<i64>| #[trigger] json_array(v) == text@ ==> r is Ok && r->Ok_0@ == v,
{
    serde_json::from_str::<Vec<i64>>(text).map_err(|e| e.to_string())
}

/// What decoding `text` into a sequence of integers may give: the sequence
/// whose JSON array `text` is, where there is one; a decoding error otherwise.
pub open spec fn json_decoding(text: Seq<char>, r: Result<Vec<i64>, ExternError>) -> bool {
    &&& forall|v: Seq<i64>| #[trigger] json_array(v) == text ==> (r matches Ok(w) && w@ == v)
    &&& r matches Err(e) ==> e.code == JSON_ERROR_CODE && e.message is Some
}

/// Decodes a structured payload holding a sequence of integers.  A text that
/// does not decode is reported as a domain error with `JSON_ERROR_CODE`.
pub fn decode_json_i64s(text: &str) -> (r: Result<Vec<i64>, ExternError>)
    ensures
        json_decoding(text@, r),
{
    match i64s_from_json(text) {
        Ok(v) => Ok(v),
        Err(m) => Err(ExternError::new_error(JSON_ERROR_CODE, m)),
    }
}

/// Round trip: decoding the JSON text that a sequence of integers is written
/// as gives that sequence back.
pub proof fn lemma_json_round_trip(v: Seq<i64>, r: Result<Vec<i64>, ExternError>)
    requires
        json_decoding(json_array(v), r),
    ensures
        r matches Ok(w) && w@ == v,
{
}

} // verus!

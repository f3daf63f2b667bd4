use vstd::prelude::*;
use vstd::utf8::*;
use vstd::string::*;

verus! {

broadcast use vstd::array::group_array_axioms;

/// Whether `b` is one of the sixty-four characters of the URL-safe base64
/// alphabet: a digit, a letter of either case, `_` or `-`.
pub open spec fn is_base64url(b: u8) -> bool {
    (48 <= b <= 57) || (97 <= b <= 122) || (65 <= b <= 90) || b == 95 || b == 45
}

/// Whether `b` is a guid that places accepts: exactly twelve bytes, each a
/// base64url character.
pub open spec fn valid_for_places(b: Seq<u8>) -> bool {
    b.len() == 12 && forall|i: int| 0 <= i < 12 ==> is_base64url(#[trigger] b[i])
}

/// Whether `b` is a base64url character.
pub fn is_base64url_byte(b: u8) -> (r: bool)
    ensures
        r == is_base64url(b),
{
    (48 <= b && b <= 57) || (97 <= b && b <= 122) || (65 <= b && b <= 90) || b == 95 || b == 45
}

/// Bytes that are all ASCII form valid UTF-8.
proof fn lemma_ascii_valid_utf8(b: Seq<u8>)
    requires
        forall|i: int| 0 <= i < b.len() ==> #[trigger] b[i] < 128,
    ensures
        valid_utf8(b),
{
    assert(b.subrange(0, 0) =~= Seq::<u8>::empty());
    partial_valid_utf8_extend_ascii_block(b, 0, b.len() as int);
    assert(b.subrange(0, b.len() as int) =~= b);
}

/// Relies on `std::str::from_utf8`: it succeeds exactly on valid UTF-8, and
/// then the string's encoding is the given bytes.
#[verifier::external_body]
fn str_from_utf8(b: &[u8]) -> (r: Option<&str>)
    ensures
        r is Some <==> valid_utf8(b@),
        r matches Some(s) ==> s.spec_bytes() == b@,
{
    std::str::from_utf8(b).ok()
}

/// Byte-wise equality of two slices.
fn bytes_eq(a: &[u8], b: &[u8]) -> (r: bool)
    ensures
        r == (a@ == b@),
{
    if a.len() != b.len() {
        return false;
    }
    let mut i: usize = 0;
    while i < a.len()
        invariant
            a@.len() == b@.len(),
            i <= a@.len(),
            forall|j: int| 0 <= j < i ==> a@[j] == b@[j],
        decreases a.len() - i,
    {
        if a[i] != b[i] {
            return false;
        }
        i += 1;
    }
    assert(a@ =~= b@);
    true
}

/// An identifier as used by sync.
///
/// Guids that places accepts (twelve base64url bytes) are stored inline; any
/// other valid UTF-8 text is kept in a heap string.  The representation is
/// chosen by the bytes alone, so two guids with the same bytes are alike.
#[derive(Debug, Eq, PartialOrd, Ord, Hash)]
pub struct Guid(Repr);

#[derive(Clone, Debug, PartialEq, Eq, PartialOrd, Ord, Hash)]
enum Repr {
    Fast([u8; 12]),
    Slow(String),
}

impl View for Guid {
    type V = Seq<u8>;

    /// The guid's bytes: UTF-8 text.
    closed spec fn view(&self) -> Seq<u8> {
        match self.0 {
            Repr::Fast(bytes) => bytes@,
            Repr::Slow(s) => encode_utf8(s@),
        }
    }
}

impl Guid {
    #[verifier::type_invariant]
    closed spec fn inv(self) -> bool {
        match self.0 {
            Repr::Fast(bytes) => valid_for_places(bytes@),
            Repr::Slow(s) => !valid_for_places(encode_utf8(s@)),
        }
    }

    /// The bytes of a well-formed guid are valid UTF-8.
    proof fn lemma_valid_utf8(&self)
        requires
            self.inv(),
        ensures
            valid_utf8(self@),
    {
        match self.0 {
            Repr::Fast(bytes) => {
                assert forall|i: int| 0 <= i < bytes@.len() implies #[trigger] bytes@[i] < 128 by {
                    assert(is_base64url(bytes@[i]));
                }
                lemma_ascii_valid_utf8(bytes@);
            },
            Repr::Slow(s) => {
                encode_utf8_valid_utf8(s@);
            },
        }
    }

    fn fast_bytes(b: &[u8]) -> (r: [u8; 12])
        requires
            b@.len() == 12,
        ensures
            r@ == b@,
    {
        let r = [b[0], b[1], b[2], b[3], b[4], b[5], b[6], b[7], b[8], b[9], b[10], b[11]];
        assert(r@ =~= b@);
        r
    }

    /// The guid whose bytes are those of `s`.
    pub fn from_str(s: &str) -> (r: Guid)
        ensures
            r@ == s.spec_bytes(),
    {
        let b = s.as_bytes();
        if Self::can_use_fast(b) {
            Guid(Repr::Fast(Self::fast_bytes(b)))
        } else {
            Guid(Repr::Slow(s.to_owned()))
        }
    }

    /// The guid whose bytes are `b`, or `None` where `b` is not valid UTF-8.
    pub fn try_from_bytes(b: &[u8]) -> (r: Option<Guid>)
        ensures
            r is Some <==> valid_utf8(b@),
            r matches Some(g) ==> g@ == b@,
    {
        if Self::can_use_fast(b) {
            proof {
                assert forall|i: int| 0 <= i < b@.len() implies #[trigger] b@[i] < 128 by {
                    assert(is_base64url(b@[i]));
                }
                lemma_ascii_valid_utf8(b@);
            }
            Some(Guid(Repr::Fast(Self::fast_bytes(b))))
        } else {
            match str_from_utf8(b) {
                Some(s) => Some(Guid(Repr::Slow(s.to_owned()))),
                None => None,
            }
        }
    }

    /// The guid whose bytes are `b`, which must be valid UTF-8.
    pub fn from_bytes(b: &[u8]) -> (r: Guid)
        requires
            valid_utf8(b@),
        ensures
            r@ == b@,
    {
        Guid::try_from_bytes(b).unwrap()
    }

    /// The guid's bytes.
    pub fn as_bytes(&self) -> (r: &[u8])
        ensures
            r@ == self@,
    {
        match &self.0 {
            Repr::Fast(bytes) => bytes.as_slice(),
            Repr::Slow(s) => s.as_str().as_bytes(),
        }
    }

    /// The guid as text.
    pub fn as_str(&self) -> (r: &str)
        ensures
            r.spec_bytes() == self@,
    {
        proof {
            use_type_invariant(self);
            self.lemma_valid_utf8();
        }
        match &self.0 {
            Repr::Fast(bytes) => str_from_utf8(bytes.as_slice()).unwrap(),
            Repr::Slow(s) => s.as_str(),
        }
    }

    /// The guid as an owned string.
    pub fn into_string(self) -> (r: String)
        ensures
            encode_utf8(r@) == self@,
    {
        proof {
            use_type_invariant(&self);
            self.lemma_valid_utf8();
        }
        match self.0 {
            Repr::Fast(bytes) => str_from_utf8(bytes.as_slice()).unwrap().to_owned(),
            Repr::Slow(s) => s,
        }
    }

    fn can_use_fast(bytes: &[u8]) -> (r: bool)
        ensures
            r == valid_for_places(bytes@),
    {
        if bytes.len() != 12 {
            return false;
        }
        let mut i: usize = 0;
        while i < 12
            invariant
                bytes@.len() == 12,
                i <= 12,
                forall|j: int| 0 <= j < i ==> is_base64url(#[trigger] bytes@[j]),
            decreases 12 - i,
        {
            if !is_base64url_byte(bytes[i]) {
                return false;
            }
            i += 1;
        }
        true
    }

    /// Whether the bytes are a guid that places accepts: length twelve, and
    /// made of base64url characters alone.
    pub fn is_valid_for_places(bytes: &[u8]) -> (r: bool)
        ensures
            r == valid_for_places(bytes@),
    {
        Guid::can_use_fast(bytes)
    }
}

impl Clone for Guid {
    fn clone(&self) -> (r: Guid)
        ensures
            r@ == self@,
    {
        proof {
            use_type_invariant(self);
            self.lemma_valid_utf8();
        }
        Guid::from_bytes(self.as_bytes())
    }
}

impl PartialEq for Guid {
    fn eq(&self, other: &Guid) -> (r: bool) {
        bytes_eq(self.as_bytes(), other.as_bytes())
    }
}

impl vstd::std_specs::cmp::PartialEqSpecImpl for Guid {
    open spec fn obeys_eq_spec() -> bool {
        true
    }

    open spec fn eq_spec(&self, other: &Guid) -> bool {
        self@ == other@
    }
}

impl<'a> PartialEq<&'a str> for Guid {
    fn eq(&self, other: &&'a str) -> (r: bool) {
        bytes_eq(self.as_bytes(), other.as_bytes())
    }
}

impl<'a> vstd::std_specs::cmp::PartialEqSpecImpl<&'a str> for Guid {
    open spec fn obeys_eq_spec() -> bool {
        true
    }

    open spec fn eq_spec(&self, other: &&'a str) -> bool {
        self@ == other.spec_bytes()
    }
}

impl<'a> PartialEq<&'a [u8]> for Guid {
    fn eq(&self, other: &&'a [u8]) -> (r: bool) {
        bytes_eq(self.as_bytes(), *other)
    }
}

impl<'a> vstd::std_specs::cmp::PartialEqSpecImpl<&'a [u8]> for Guid {
    open spec fn obeys_eq_spec() -> bool {
        true
    }

    open spec fn eq_spec(&self, other: &&'a [u8]) -> bool {
        self@ == other@
    }
}

impl PartialEq<String> for Guid {
    fn eq(&self, other: &String) -> (r: bool) {
        bytes_eq(self.as_bytes(), other.as_str().as_bytes())
    }
}

impl vstd::std_specs::cmp::PartialEqSpecImpl<String> for Guid {
    open spec fn obeys_eq_spec() -> bool {
        true
    }

    open spec fn eq_spec(&self, other: &String) -> bool {
        self@ == encode_utf8(other@)
    }
}

impl PartialEq<Vec<u8>> for Guid {
    fn eq(&self, other: &Vec<u8>) -> (r: bool) {
        bytes_eq(self.as_bytes(), other.as_slice())
    }
}

impl vstd::std_specs::cmp::PartialEqSpecImpl<Vec<u8>> for Guid {
    open spec fn obeys_eq_spec() -> bool {
        true
    }

    open spec fn eq_spec(&self, other: &Vec<u8>) -> bool {
        self@ == other@
    }
}

impl AsRef<str> for Guid {
    fn as_ref(&self) -> &str {
        self.as_str()
    }
}

impl AsRef<[u8]> for Guid {
    fn as_ref(&self) -> &[u8] {
        self.as_bytes()
    }
}

impl std::ops::Deref for Guid {
    type Target = str;

    fn deref(&self) -> &str {
        self.as_str()
    }
}

impl<'a> From<&'a str> for Guid {
    fn from(s: &'a str) -> (r: Guid)
        ensures
            r@ == s.spec_bytes(),
    {
        Guid::from_str(s)
    }
}

// What `from` gives is stated on each impl; the trait-level spec is left open.
impl<'a> vstd::std_specs::convert::FromSpecImpl<&'a str> for Guid {
    open spec fn obeys_from_spec() -> bool {
        false
    }

    open spec fn from_spec(s: &'a str) -> Guid {
        arbitrary()
    }
}

impl From<String> for Guid {
    fn from(s: String) -> (r: Guid)
        ensures
            r@ == encode_utf8(s@),
    {
        Guid::from_str(s.as_str())
    }
}

impl vstd::std_specs::convert::FromSpecImpl<String> for Guid {
    open spec fn obeys_from_spec() -> bool {
        false
    }

    open spec fn from_spec(s: String) -> Guid {
        arbitrary()
    }
}

impl From<Guid> for String {
    fn from(g: Guid) -> (r: String)
        ensures
            encode_utf8(r@) == g@,
    {
        g.into_string()
    }
}

impl vstd::std_specs::convert::FromSpecImpl<Guid> for String {
    open spec fn obeys_from_spec() -> bool {
        false
    }

    open spec fn from_spec(g: Guid) -> String {
        arbitrary()
    }
}

impl From<Guid> for Vec<u8> {
    fn from(g: Guid) -> (r: Vec<u8>)
        ensures
            r@ == g@,
    {
        let b = g.as_bytes();
        let mut out: Vec<u8> = Vec::new();
        let mut i: usize = 0;
        while i < b.len()
            invariant
                i <= b@.len(),
                b@ == g@,
                out@ == b@.subrange(0, i as int),
            decreases b.len() - i,
        {
            out.push(b[i]);
            i += 1;
            assert(out@ =~= b@.subrange(0, i as int));
        }
        assert(b@.subrange(0, b@.len() as int) =~= b@);
        out
    }
}

impl vstd::std_specs::convert::FromSpecImpl<Guid> for Vec<u8> {
    open spec fn obeys_from_spec() -> bool {
        false
    }

    open spec fn from_spec(g: Guid) -> Vec<u8> {
        arbitrary()
    }
}

} // verus!

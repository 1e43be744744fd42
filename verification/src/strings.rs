//! Strings exchanged with the OFX API.
//!
//! OFX passes many string constants across the C boundary. An
//! `OfxStr` is checked once at construction (UTF-8 and a trailing
//! NUL byte) and can then be viewed both as Rust text and as a C
//! string without copying.

use vstd::prelude::*;
use vstd::utf8::*;
use vstd::string::*;

verus! {

broadcast use vstd::utf8::group_utf8_lib;

/// A C-compatible string slice: UTF-8 text whose last byte is NUL.
#[derive(Copy, Clone)]
pub struct OfxStr<'a> {
    text: &'a str,
}

/// Checks that `bytes` is UTF-8 text, as `std::str::from_utf8` does.
#[verifier::external_body]
pub(crate) fn utf8_text(bytes: &[u8]) -> (r: Option<&str>)
    ensures
        r is Some <==> valid_utf8(bytes@),
        r matches Some(s) ==> s.spec_bytes() == bytes@,
{
    std::str::from_utf8(bytes).ok()
}

/// Byte-wise equality of two slices.
pub fn bytes_eq(a: &[u8], b: &[u8]) -> (r: bool)
    ensures
        r == (a@ == b@),
{
    if a.len() != b.len() {
        return false;
    }
    let mut i: usize = 0;
    while i < a.len()
        invariant
            a@.len() == b@.len(),
            i <= a@.len(),
            forall|j: int| 0 <= j < i ==> a@[j] == b@[j],
        decreases a@.len() - i,
    {
        if a[i] != b[i] {
            return false;
        }
        i = i + 1;
    }
    assert(a@ =~= b@);
    true
}

/// Equality of two texts.
pub fn text_eq(a: &str, b: &str) -> (r: bool)
    ensures
        r == (a@ == b@),
{
    let r = bytes_eq(a.as_bytes(), b.as_bytes());
    proof {
        encode_utf8_decode_utf8(a@);
        encode_utf8_decode_utf8(b@);
    }
    r
}

/// True when `c` holds the C string of `s`: its bytes and a NUL.
pub fn c_text_eq(c: &[u8], s: &str) -> (r: bool)
    ensures
        r == (c@ == s.spec_bytes().push(0u8)),
{
    let n = c.len();
    if n == 0 || c[n - 1] != 0 {
        return false;
    }
    let head = vstd::slice::slice_subrange(c, 0, n - 1);
    let r = bytes_eq(head, s.as_bytes());
    proof {
        if r {
            assert(c@ =~= s.spec_bytes().push(0u8));
        }
        if c@ == s.spec_bytes().push(0u8) {
            assert(head@ =~= s.spec_bytes());
        }
    }
    r
}

impl<'a> View for OfxStr<'a> {
    type V = Seq<u8>;

    /// The bytes of the string, terminating NUL included.
    closed spec fn view(&self) -> Seq<u8> {
        self.text.spec_bytes()
    }
}

/// True when `bytes` can back an `OfxStr`: non-empty and NUL-terminated.
pub open spec fn nul_terminated(bytes: Seq<u8>) -> bool {
    bytes.len() > 0 && bytes.last() == 0u8
}

impl<'a> OfxStr<'a> {
    #[verifier::type_invariant]
    spec fn inv(&self) -> bool {
        nul_terminated(self.text.spec_bytes())
    }

    /// Creates an `OfxStr` from text that ends in a NUL byte.
    pub fn from_str(s: &'a str) -> (r: OfxStr<'a>)
        requires
            nul_terminated(s.spec_bytes()),
        ensures
            r@ == s.spec_bytes(),
    {
        OfxStr { text: s }
    }

    /// Creates an `OfxStr` from the bytes of a C string, NUL included.
    /// Returns `None` when the bytes are not UTF-8.
    pub fn from_bytes_with_nul(bytes: &'a [u8]) -> (r: Option<OfxStr<'a>>)
        requires
            nul_terminated(bytes@),
        ensures
            r is Some <==> valid_utf8(bytes@),
            r matches Some(s) ==> s@ == bytes@,
    {
        match utf8_text(bytes) {
            Some(s) => Some(OfxStr { text: s }),
            None => None,
        }
    }

    /// The characters of the text, terminating NUL excluded.
    pub closed spec fn text(&self) -> Seq<char> {
        decode_utf8(self@.drop_last())
    }

    /// The text without its terminating NUL.
    pub fn as_str(&self) -> (r: &'a str)
        ensures
            r.spec_bytes() == self@.drop_last(),
            r@ == self.text(),
    {
        proof {
            use_type_invariant(self);
        }
        let n = self.text.as_bytes().len();
        let ghost b = self.text.spec_bytes();
        proof {
            encode_utf8_valid_utf8(self.text@);
            is_char_boundary_iff_not_is_continuation_byte(b, n - 1);
        }
        let (head, _tail) = self.text.split_at(n - 1);
        assert(head.spec_bytes() =~= b.drop_last());
        head
    }

    /// The text with its terminating NUL, as handed to C code.
    pub fn as_str_with_nul(&self) -> (r: &'a str)
        ensures
            r.spec_bytes() == self@,
    {
        self.text
    }
}

} // verus!

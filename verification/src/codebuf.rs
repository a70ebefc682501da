//! The code buffer: a `heapless::String` of eight bytes of storage, the
//! structure the entry loop accumulates symbols into. The buffer itself
//! comes from the `heapless` crate; each operation the logic relies on is
//! stated here over `code_chars`, the characters the buffer holds.
//!
//! Every caller keeps the buffer ASCII-only (the keypad symbols all are),
//! so its byte length and its character count coincide; the contracts that
//! mention lengths require that.

use vstd::prelude::*;
use vstd::utf8::is_ascii_chars;

verus! {

/// Byte capacity of the code buffer. Only four symbols are ever accepted
/// per entry cycle; the storage is larger as a safety margin.
pub const CODE_BUF_CAPACITY: usize = 8;

#[verifier::external_type_specification]
#[verifier::external_body]
pub struct ExHeaplessString<const N: usize>(heapless::String<N>);

/// The characters a code buffer holds.
pub uninterp spec fn code_chars(s: heapless::String<8>) -> Seq<char>;

/// Relies on heapless::String::new: a fresh string is empty.
#[verifier::external_body]
pub(crate) fn buf_new() -> (r: heapless::String<8>)
    ensures
        code_chars(r) == Seq::<char>::empty(),
{
    heapless::String::new()
}

/// Relies on heapless::String::push_str (via Vec::extend_from_slice):
/// when the appended bytes fit within the capacity, the call succeeds and
/// appends them all; ASCII characters encode as one byte each, so the
/// character counts bound the bytes.
#[verifier::external_body]
pub(crate) fn buf_push_str(s: &mut heapless::String<8>, t: &str) -> (r: Result<(), ()>)
    requires
        is_ascii_chars(code_chars(*old(s))),
        is_ascii_chars(t@),
        code_chars(*old(s)).len() + t@.len() <= CODE_BUF_CAPACITY,
    ensures
        r is Ok,
        code_chars(*final(s)) == code_chars(*old(s)) + t@,
{
    s.push_str(t)
}

/// Relies on heapless::String's equality with &str: true exactly when the
/// characters match (UTF-8 encoding is one-to-one).
#[verifier::external_body]
pub(crate) fn buf_eq_str(s: &heapless::String<8>, t: &str) -> (r: bool)
    ensures
        r == (code_chars(*s) == t@),
{
    *s == t
}

/// Relies on str::len through heapless::String's Deref: the byte length,
/// which for an ASCII string is the character count.
#[verifier::external_body]
pub(crate) fn buf_len(s: &heapless::String<8>) -> (r: usize)
    requires
        is_ascii_chars(code_chars(*s)),
    ensures
        r == code_chars(*s).len(),
{
    s.len()
}

/// Relies on heapless::String::as_str: the same characters, borrowed.
#[verifier::external_body]
pub(crate) fn buf_as_str(s: &heapless::String<8>) -> (r: &str)
    ensures
        r@ == code_chars(*s),
{
    s.as_str()
}

} // verus!

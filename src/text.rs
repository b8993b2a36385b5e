//! The bounded text buffer that holds the counter text, and the formatting of
//! the counter into it.
use vstd::prelude::*;
use vstd::utf8::{encode_utf8, is_ascii_chars};
use crate::decimal::{decimal, decimal_is_canonical, lemma_decimal_digits};

verus! {

/// Capacity of the counter text buffer, in bytes.
pub const TEXT_CAPACITY: usize = 256;

/// The fixed-capacity string that holds the counter text.
pub type TextBuf = heapless::String<256>;

#[verifier::external_type_specification]
#[verifier::external_body]
pub struct ExHeaplessString<const N: usize>(heapless::String<N>);

/// The characters that a counter text buffer holds.
pub uninterp spec fn text_of(s: heapless::String<256>) -> Seq<char>;

/// Number of bytes that `s` takes in UTF-8.
pub open spec fn byte_len(s: Seq<char>) -> nat {
    encode_utf8(s).len()
}

/// Relies on heapless::String::new: a new string is empty.
#[verifier::external_body]
fn buf_new() -> (r: TextBuf)
    ensures
        text_of(r) == Seq::<char>::empty(),
{
    heapless::String::new()
}

/// Relies on heapless::String::clear: the string becomes empty.
#[verifier::external_body]
fn buf_clear(b: &mut TextBuf)
    ensures
        text_of(*final(b)) == Seq::<char>::empty(),
{
    b.clear()
}

/// Relies on heapless::String::as_str: a view of the characters held.
#[verifier::external_body]
fn buf_as_str(b: &TextBuf) -> (r: &str)
    ensures
        r@ == text_of(*b),
{
    b.as_str()
}

/// Relies on ufmt's `uDisplay` for `u32`, which writes the decimal digits of
/// `v` with one `write_str` into heapless::String's `uWrite` (a `push_str`).
#[verifier::external_body]
fn buf_write_u32(b: &mut TextBuf, v: u32) -> (r: Result<(), ()>)
    ensures
        r is Ok <==> byte_len(text_of(*old(b))) + byte_len(decimal(v as nat)) <= 256,
        r is Ok ==> text_of(*final(b)) == text_of(*old(b)) + decimal(v as nat),
        r is Err ==> text_of(*final(b)) == text_of(*old(b)),
{
    ufmt::uDisplay::fmt(&v, &mut ufmt::Formatter::new(b))
}

proof fn lemma_ascii_len(s: Seq<char>)
    requires
        is_ascii_chars(s),
    ensures
        byte_len(s) == s.len(),
{
    vstd::utf8::is_ascii_chars_encode_utf8(s);
}

/// Empties the buffer.
pub fn clear_text(b: &mut TextBuf)
    ensures
        text_of(*final(b)) == Seq::<char>::empty(),
{
    buf_clear(b);
}

/// The characters that the buffer holds.
pub fn text_str(b: &TextBuf) -> (r: &str)
    ensures
        r@ == text_of(*b),
{
    buf_as_str(b)
}

/// An empty buffer.
pub fn empty_text() -> (r: TextBuf)
    ensures
        text_of(r) == Seq::<char>::empty(),
{
    buf_new()
}

/// Appends the decimal notation of `v` to the buffer when it fits in the
/// remaining capacity; otherwise leaves the buffer as it is.
pub fn write_counter(b: &mut TextBuf, v: u32) -> (r: Result<(), ()>)
    ensures
        r is Ok <==> byte_len(text_of(*old(b))) + decimal(v as nat).len() <= TEXT_CAPACITY,
        r is Ok ==> text_of(*final(b)) == text_of(*old(b)) + decimal(v as nat),
        r is Err ==> text_of(*final(b)) == text_of(*old(b)),
{
    proof {
        lemma_decimal_digits(v as nat);
        lemma_ascii_len(decimal(v as nat));
    }
    buf_write_u32(b, v)
}

/// A fresh buffer holding the decimal notation of `v`.
pub fn counter_text(v: u32) -> (r: TextBuf)
    ensures
        text_of(r) == decimal(v as nat),
{
    let mut b = empty_text();
    proof {
        decimal_is_canonical(v as nat);
        assert(byte_len(text_of(b)) == 0);
    }
    let res = write_counter(&mut b, v);
    assert(res is Ok);
    proof {
        assert(Seq::<char>::empty() + decimal(v as nat) =~= decimal(v as nat));
    }
    b
}

} // verus!

use vstd::prelude::*;
use vstd::utf8::encode_utf8;

use crate::telemetry::Configuration;

verus! {

/// Number of UTF-8 bytes that encode a character sequence.
pub open spec fn byte_len(s: Seq<char>) -> nat {
    encode_utf8(s).len()
}

#[verifier::external_type_specification]
#[verifier::external_body]
pub struct ExHeaplessString<const N: usize>(heapless::String<N>);

#[verifier::external_type_specification]
#[verifier::external_body]
#[verifier::reject_recursive_types(T)]
pub struct ExHeaplessVec<T, const N: usize>(heapless::Vec<T, N>);

/// The text held by a `heapless::String<20>`.
pub uninterp spec fn text20(s: heapless::String<20>) -> Seq<char>;

/// Relies on heapless's `TryFrom<&str>` for `String<20>`: it copies the
/// text when its UTF-8 bytes fit in 20, and fails with `()` otherwise.
#[verifier::external_body]
pub(crate) fn bounded20(s: &str) -> (r: Result<heapless::String<20>, ()>)
    ensures
        r is Ok <==> byte_len(s@) <= 20,
        r is Ok ==> text20(r->Ok_0) == s@,
{
    heapless::String::<20>::try_from(s)
}

/// The text held by a `heapless::String<30>`.
pub uninterp spec fn text30(s: heapless::String<30>) -> Seq<char>;

/// Relies on heapless's `TryFrom<&str>` for `String<30>`: it copies the
/// text when its UTF-8 bytes fit in 30, and fails with `()` otherwise.
#[verifier::external_body]
pub(crate) fn bounded30(s: &str) -> (r: Result<heapless::String<30>, ()>)
    ensures
        r is Ok <==> byte_len(s@) <= 30,
        r is Ok ==> text30(r->Ok_0) == s@,
{
    heapless::String::<30>::try_from(s)
}

/// The text held by a `heapless::String<32>`.
pub uninterp spec fn text32(s: heapless::String<32>) -> Seq<char>;

/// Relies on heapless's `TryFrom<&str>` for `String<32>`: it copies the
/// text when its UTF-8 bytes fit in 32, and fails with `()` otherwise.
#[verifier::external_body]
pub(crate) fn bounded32(s: &str) -> (r: Result<heapless::String<32>, ()>)
    ensures
        r is Ok <==> byte_len(s@) <= 32,
        r is Ok ==> text32(r->Ok_0) == s@,
{
    heapless::String::<32>::try_from(s)
}

/// The text held by a `heapless::String<64>`.
pub uninterp spec fn text64(s: heapless::String<64>) -> Seq<char>;

/// Relies on heapless's `TryFrom<&str>` for `String<64>`: it copies the
/// text when its UTF-8 bytes fit in 64, and fails with `()` otherwise.
#[verifier::external_body]
pub(crate) fn bounded64(s: &str) -> (r: Result<heapless::String<64>, ()>)
    ensures
        r is Ok <==> byte_len(s@) <= 64,
        r is Ok ==> text64(r->Ok_0) == s@,
{
    heapless::String::<64>::try_from(s)
}

/// The text held by a `heapless::String<100>`.
pub uninterp spec fn text100(s: heapless::String<100>) -> Seq<char>;

/// Relies on heapless's `TryFrom<&str>` for `String<100>`: it copies the
/// text when its UTF-8 bytes fit in 100, and fails with `()` otherwise.
#[verifier::external_body]
pub(crate) fn bounded100(s: &str) -> (r: Result<heapless::String<100>, ()>)
    ensures
        r is Ok <==> byte_len(s@) <= 100,
        r is Ok ==> text100(r->Ok_0) == s@,
{
    heapless::String::<100>::try_from(s)
}

/// Relies on `heapless::String::<20>::as_str`: the held text.
#[verifier::external_body]
pub(crate) fn str20(s: &heapless::String<20>) -> (r: &str)
    ensures
        r@ == text20(*s),
{
    s.as_str()
}

/// Relies on `heapless::String::<30>::as_str`: the held text.
#[verifier::external_body]
pub(crate) fn str30(s: &heapless::String<30>) -> (r: &str)
    ensures
        r@ == text30(*s),
{
    s.as_str()
}

/// Relies on `heapless::String::<100>::as_str`: the held text.
#[verifier::external_body]
pub(crate) fn str100(s: &heapless::String<100>) -> (r: &str)
    ensures
        r@ == text100(*s),
{
    s.as_str()
}

/// Relies on heapless's `PartialEq` for `String<30>`: it compares the held
/// texts.
#[verifier::external_body]
pub(crate) fn eq30(a: &heapless::String<30>, b: &heapless::String<30>) -> (r: bool)
    ensures
        r == (text30(*a) == text30(*b)),
{
    a == b
}

/// Relies on heapless's `Clone` for `String<30>`: a copy of the held text.
#[verifier::external_body]
pub(crate) fn clone30(s: &heapless::String<30>) -> (r: heapless::String<30>)
    ensures
        text30(r) == text30(*s),
{
    s.clone()
}

/// The entries held by a `heapless::Vec<Configuration, 20>`, in order.
pub uninterp spec fn entries(v: heapless::Vec<Configuration, 20>) -> Seq<Configuration>;

/// Relies on `heapless::Vec::new`: an empty vector.
#[verifier::external_body]
pub(crate) fn new_entries() -> (r: heapless::Vec<Configuration, 20>)
    ensures
        entries(r) == Seq::<Configuration>::empty(),
{
    heapless::Vec::new()
}

/// Relies on `heapless::Vec::push`: appends the item when fewer than 20 are
/// held, and hands it back unchanged otherwise.
#[verifier::external_body]
pub(crate) fn push_entry(v: &mut heapless::Vec<Configuration, 20>, c: Configuration) -> (r: Result<
    (),
    Configuration,
>)
    ensures
        r is Ok <==> entries(*old(v)).len() < 20,
        r is Ok ==> entries(*final(v)) == entries(*old(v)).push(c),
        r is Err ==> entries(*final(v)) == entries(*old(v)) && r->Err_0 == c,
{
    v.push(c)
}

/// Relies on `heapless::Vec::as_slice`: the held items, of which there are
/// never more than the capacity.
#[verifier::external_body]
pub(crate) fn entry_slice(v: &heapless::Vec<Configuration, 20>) -> (r: &[Configuration])
    ensures
        r@ == entries(*v),
        r@.len() <= 20,
{
    v.as_slice()
}

} // verus!

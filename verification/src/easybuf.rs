//! The reference-counted byte buffer of `tokio_core`, seen through what it holds.

use vstd::prelude::*;

use tokio_core::io::EasyBuf;

verus! {

#[verifier::external_type_specification]
#[verifier::external_body]
pub struct ExEasyBuf(EasyBuf);

/// The bytes that an `EasyBuf` holds, in order.
pub uninterp spec fn easybuf_bytes(buf: EasyBuf) -> Seq<u8>;

/// Calls `EasyBuf::with_capacity`, which makes a buffer holding no bytes.
#[verifier::external_body]
pub(crate) fn easybuf_with_capacity(cap: usize) -> (buf: EasyBuf)
    ensures
        easybuf_bytes(buf) == Seq::<u8>::empty(),
{
    EasyBuf::with_capacity(cap)
}

/// Calls `EasyBuf::len`: the number of bytes the buffer holds.
#[verifier::external_body]
pub(crate) fn easybuf_len(buf: &EasyBuf) -> (n: usize)
    ensures
        n == easybuf_bytes(*buf).len(),
{
    buf.len()
}

/// Calls `EasyBuf::as_slice`: the bytes the buffer holds, borrowed.
#[verifier::external_body]
pub(crate) fn easybuf_as_slice(buf: &EasyBuf) -> (bytes: &[u8])
    ensures
        bytes@ == easybuf_bytes(*buf),
{
    buf.as_slice()
}

/// Calls `EasyBuf::drain_to`, which splits off the first `at` bytes: the
/// result holds them, and the buffer keeps the rest.
#[verifier::external_body]
pub(crate) fn easybuf_drain_to(buf: &mut EasyBuf, at: usize) -> (front: EasyBuf)
    requires
        at <= easybuf_bytes(*old(buf)).len(),
    ensures
        easybuf_bytes(front) == easybuf_bytes(*old(buf)).take(at as int),
        easybuf_bytes(*final(buf)) == easybuf_bytes(*old(buf)).skip(at as int),
{
    buf.drain_to(at)
}

/// Calls `EasyBuf::get_mut` and appends `bytes` to the vector it hands out:
/// the buffer keeps the bytes it held and holds `bytes` after them.
#[verifier::external_body]
pub(crate) fn easybuf_extend(buf: &mut EasyBuf, bytes: &[u8])
    ensures
        easybuf_bytes(*final(buf)) == easybuf_bytes(*old(buf)) + bytes@,
{
    buf.get_mut().extend_from_slice(bytes)
}

} // verus!

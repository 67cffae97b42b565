//! Byte buffers: the calls into `bytes` and what they are known to do.
use vstd::prelude::*;

verus! {

/// A shared byte buffer of `bytes`.
#[verifier::external_type_specification]
#[verifier::external_body]
pub struct ExBytes(bytes::Bytes);

/// The bytes that a buffer holds.
pub uninterp spec fn content(buffer: bytes::Bytes) -> Seq<u8>;

/// Calls `bytes::Bytes::len`: the number of bytes that the buffer holds.
#[verifier::external_body]
pub(crate) fn length(buffer: &bytes::Bytes) -> (length: usize)
    ensures
        length == content(*buffer).len(),
{
    buffer.len()
}

/// Calls `bytes::Bytes::from_static`: a buffer that holds the bytes of the slice.
#[verifier::external_body]
pub(crate) fn from_static(bytes: &'static [u8]) -> (buffer: bytes::Bytes)
    ensures
        content(buffer) == bytes@,
{
    bytes::Bytes::from_static(bytes)
}

/// Calls `clone` on a `bytes::Bytes`: a second handle on the same bytes.
#[verifier::external_body]
pub(crate) fn share(buffer: &bytes::Bytes) -> (shared: bytes::Bytes)
    ensures
        content(shared) == content(*buffer),
{
    buffer.clone()
}

/// Calls `as_ref` on a `bytes::Bytes`: the bytes that it holds, as a slice.
#[verifier::external_body]
pub(crate) fn as_slice(buffer: &bytes::Bytes) -> (bytes: &[u8])
    ensures
        bytes@ == content(*buffer),
{
    buffer.as_ref()
}

} // verus!

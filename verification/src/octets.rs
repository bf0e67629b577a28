//! Shared byte buffers (`bytes::Bytes`) as sequences of bytes.
use bytes::Bytes;
use vstd::prelude::*;

verus! {

#[verifier::external_type_specification]
#[verifier::external_body]
pub struct ExBytes(bytes::Bytes);

/// The bytes that a buffer holds, in order.
pub uninterp spec fn octets(buffer: Bytes) -> Seq<u8>;

/// `Bytes::clone`: the copy holds the same bytes.
pub assume_specification[ <Bytes as Clone>::clone ](buffer: &Bytes) -> (copy: Bytes)
    ensures
        octets(copy) == octets(*buffer),
;

/// Calls `Bytes::from(Vec<u8>)`: the buffer holds the vector's bytes.
#[verifier::external_body]
pub(crate) fn octets_from_vec(bytes: Vec<u8>) -> (buffer: Bytes)
    ensures
        octets(buffer) == bytes@,
{
    Bytes::from(bytes)
}

/// Calls `Bytes::copy_from_slice`: the buffer holds a copy of the slice.
#[verifier::external_body]
pub(crate) fn octets_from_slice(bytes: &[u8]) -> (buffer: Bytes)
    ensures
        octets(buffer) == bytes@,
{
    Bytes::copy_from_slice(bytes)
}

/// Calls `Bytes::as_ref`: the slice is all that the buffer holds.
#[verifier::external_body]
pub(crate) fn octets_as_slice(buffer: &Bytes) -> (bytes: &[u8])
    ensures
        bytes@ == octets(*buffer),
{
    buffer.as_ref()
}

} // verus!

//! The heap buffers that serialized and encrypted chunks own.

use vstd::prelude::*;

verus! {

#[verifier::external_type_specification]
#[verifier::external_body]
pub struct ExBuffer(ps_buffer::Buffer);

#[verifier::external_type_specification]
#[verifier::external_body]
pub struct ExBufferError(ps_buffer::BufferError);

/// The bytes that a `Buffer` holds.
pub uninterp spec fn buffer_content(b: ps_buffer::Buffer) -> Seq<u8>;

/// Relies on `ps_buffer::Buffer::from_slice`, which allocates a buffer
/// holding a copy of `bytes`, or reports that allocation failed.
#[verifier::external_body]
pub(crate) fn buffer_from_slice(bytes: &[u8]) -> (r: Result<ps_buffer::Buffer, ps_buffer::BufferError>)
    ensures
        r matches Ok(b) ==> buffer_content(b) == bytes@,
{
    ps_buffer::Buffer::from_slice(bytes)
}

/// Relies on `ps_buffer::Buffer::as_slice`, which exposes the bytes it holds.
#[verifier::external_body]
pub(crate) fn buffer_as_slice(b: &ps_buffer::Buffer) -> (r: &[u8])
    ensures
        r@ == buffer_content(*b),
{
    b.as_slice()
}

} // verus!

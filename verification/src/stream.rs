//! The instruction stream: an immutable byte buffer of the `bytes`
//! crate, read through a cursor owned by the machine.
//!
//! `bytes::Bytes` is opaque to the verifier; `stream_of` names the byte
//! sequence a buffer holds, and the two accessors below state what the
//! crate's source shows of `len` and of indexing.

use vstd::prelude::*;

verus! {

#[verifier::external_type_specification]
#[verifier::external_body]
pub struct ExBytes(bytes::Bytes);

/// The sequence of bytes that the buffer `b` holds.
pub uninterp spec fn stream_of(b: bytes::Bytes) -> Seq<u8>;

/// Relies on bytes::Bytes::len: the number of bytes the buffer holds.
#[verifier::external_body]
pub fn stream_len(b: &bytes::Bytes) -> (n: usize)
    ensures
        n == stream_of(*b).len(),
{
    b.len()
}

/// Relies on bytes::Bytes's Deref to `[u8]`: the byte at position `i`.
#[verifier::external_body]
pub fn stream_byte(b: &bytes::Bytes, i: usize) -> (x: u8)
    requires
        i < stream_of(*b).len(),
    ensures
        x == stream_of(*b)[i as int],
{
    b[i]
}

} // verus!

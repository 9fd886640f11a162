//! Trusted interface to the reference-counted byte buffer used at the wire
//! boundary.
//!
//! The codec hands encoded payloads to the transport as `bytes::Bytes` and
//! adopts inbound ones from it.  The buffer itself is opaque here; its
//! contents are named by [`bytes_seq`], and each wrapper states what the
//! operation does to those contents.

use vstd::prelude::*;

verus! {

#[verifier::external_type_specification]
#[verifier::external_body]
pub struct ExBytes(bytes::Bytes);

/// The byte contents of a shared byte buffer.
pub uninterp spec fn bytes_seq(b: bytes::Bytes) -> Seq<u8>;

/// Relies on `bytes::Bytes::from(Vec<u8>)`: takes over the vector's contents
/// without changing them.
#[verifier::external_body]
pub(crate) fn bytes_from_vec(v: Vec<u8>) -> (b: bytes::Bytes)
    ensures
        bytes_seq(b) == v@,
{
    bytes::Bytes::from(v)
}

/// Relies on `bytes::Bytes::len`.
#[verifier::external_body]
pub(crate) fn bytes_len(b: &bytes::Bytes) -> (n: usize)
    ensures
        n == bytes_seq(*b).len(),
{
    b.len()
}

/// Relies on `bytes::Bytes::slice`: returns the suffix starting at `start`
/// without copying the underlying memory.  `slice` panics when the range is
/// out of bounds, which the precondition rules out.
#[verifier::external_body]
pub(crate) fn bytes_slice_from(b: &bytes::Bytes, start: usize) -> (r: bytes::Bytes)
    requires
        start <= bytes_seq(*b).len(),
    ensures
        bytes_seq(r) == bytes_seq(*b).skip(start as int),
{
    b.slice(start..)
}

/// Relies on `bytes::Bytes::try_into_mut` and `Vec::from(BytesMut)`: when
/// this handle is the only owner, the backing storage moves into a vector;
/// otherwise the handle comes back unchanged.  Which case holds depends on
/// run-time sharing, so only the contents of each outcome are stated.
#[verifier::external_body]
pub(crate) fn bytes_reclaim(b: bytes::Bytes) -> (r: Result<Vec<u8>, bytes::Bytes>)
    ensures
        r matches Ok(v) ==> v@ == bytes_seq(b),
        r matches Err(shared) ==> bytes_seq(shared) == bytes_seq(b),
{
    match b.try_into_mut() {
        Ok(owned) => Ok(owned.into()),
        Err(still_shared) => Err(still_shared),
    }
}

/// Relies on `[u8]::to_vec` through the buffer's slice view: copies the
/// contents out.
#[verifier::external_body]
pub(crate) fn bytes_copy_to_vec(b: &bytes::Bytes) -> (v: Vec<u8>)
    ensures
        v@ == bytes_seq(*b),
{
    b.to_vec()
}

} // verus!

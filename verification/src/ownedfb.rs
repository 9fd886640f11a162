//! Owned, type-tagged FlatBuffers buffers.
//!
//! [`OwnedFB`] couples a byte vector, a start offset and a phantom schema
//! type.  Its invariant is that the trailing region `storage[offset..]` is a
//! structurally valid encoding of the tagged type, so every typed view taken
//! from it is safe to read.  The safe constructors establish the invariant by
//! running the format's verifier; the explicitly trusted constructors demand
//! it from the caller instead.

use vstd::prelude::*;

verus! {

use core::marker::PhantomData;
use vstd::slice::slice_subrange;
use vstd::slice::slice_to_vec;
use crate::shared_bytes::bytes_seq;
use crate::shared_bytes::bytes_copy_to_vec;
use crate::shared_bytes::bytes_from_vec;
use crate::shared_bytes::bytes_reclaim;
use crate::shared_bytes::bytes_slice_from;

#[verifier::external_type_specification]
#[verifier::external_body]
pub struct ExInvalidFlatbuffer(flatbuffers::InvalidFlatbuffer);

/// Structural verification failure: an offset, table or vector of the
/// encoding does not resolve within bounds.  Always recoverable; it fails
/// only the construction or decode that met it.
#[derive(Debug, Clone)]
pub struct InvalidEncoding {
    detail: String,
}

/// Relies on the `Display` impl of `flatbuffers::InvalidFlatbuffer` to
/// describe the first structural violation the verifier found.
#[verifier::external_body]
fn render_invalid(e: flatbuffers::InvalidFlatbuffer) -> String {
    format!("{e}")
}

impl InvalidEncoding {
    /// The description carried by this error.
    pub closed spec fn spec_detail(&self) -> Seq<char> {
        self.detail@
    }

    /// Human-readable description of the structural violation.
    pub fn message(&self) -> (r: &str)
        ensures
            r@ == self.spec_detail(),
    {
        self.detail.as_str()
    }

    pub(crate) fn from_verifier_error(e: flatbuffers::InvalidFlatbuffer) -> InvalidEncoding {
        InvalidEncoding { detail: render_invalid(e) }
    }

    pub(crate) fn offset_out_of_range() -> InvalidEncoding {
        InvalidEncoding { detail: "root offset lies beyond the end of storage".to_owned() }
    }
}

/// A schema type whose encodings the format's verifier can check.
///
/// This plays the role that the format's `Verifiable` and `Follow` traits
/// play for generated table types: each table type held by an [`OwnedFB`]
/// implements it, usually by delegating to the verifying root accessor of
/// the generated code.
pub trait FbRoot: Sized {
    /// Whether `bytes` is a structurally valid encoding of `Self` with the
    /// root at index 0, as judged by the format's verifier.
    spec fn spec_valid(bytes: Seq<u8>) -> bool;

    /// Runs the format's verifier over `buf` with the root at index 0.
    fn validate(buf: &[u8]) -> (r: Result<(), InvalidEncoding>)
        ensures
            r is Ok <==> Self::spec_valid(buf@);
}

/// Runs the format's verifier over `buf[index..]` as an encoding of `T`.
/// An `index` beyond the end of the buffer is rejected.
pub fn check_flatbuffer<T: FbRoot>(buf: &[u8], index: usize) -> (r: Result<(), InvalidEncoding>)
    ensures
        r is Ok <==> index <= buf@.len() && T::spec_valid(buf@.skip(index as int)),
{
    if index > buf.len() {
        return Err(InvalidEncoding::offset_out_of_range());
    }
    let tail = slice_subrange(buf, index, buf.len());
    T::validate(tail)
}

/// Owned bytes of an encoded value of schema type `T`.
///
/// The payload `storage[offset..]` is always a structurally valid encoding
/// of `T`; typed views derived from it never read out of bounds.
pub struct OwnedFB<T: FbRoot> {
    buf: Vec<u8>,
    index: usize,
    _phantom: PhantomData<T>,
}

impl<T: FbRoot> OwnedFB<T> {
    /// All bytes owned by this buffer.
    pub closed spec fn storage(self) -> Seq<u8> {
        self.buf@
    }

    /// Byte index of the encoded root region within the storage.
    pub closed spec fn offset(self) -> int {
        self.index as int
    }

    /// The encoded value: every byte from the offset to the end.
    pub open spec fn payload(self) -> Seq<u8> {
        self.storage().skip(self.offset())
    }

    #[verifier::type_invariant]
    spec fn inv(self) -> bool {
        self.index <= self.buf@.len() && T::spec_valid(self.payload())
    }

    /// Copies `buf` into owned storage after verifying it.
    pub fn new(buf: &[u8]) -> (r: Result<OwnedFB<T>, InvalidEncoding>)
        ensures
            r is Ok <==> T::spec_valid(buf@),
            r matches Ok(o) ==> o.payload() == buf@ && o.offset() == 0 && o.storage() == buf@,
    {
        match T::validate(buf) {
            Ok(()) => {
                let owned = slice_to_vec(buf);
                proof {
                    assert(owned@.skip(0) =~= buf@);
                }
                let o = Self::new_from_vec_unchecked(owned, 0);
                Ok(o)
            },
            Err(e) => Err(e),
        }
    }

    /// Adopts already-verified bytes without running the verifier.
    ///
    /// This is a trust boundary, not a general-purpose constructor: the
    /// caller must establish that `buf[index..]` is a valid encoding of `T`,
    /// exactly as the invariant demands.
    pub fn new_from_vec_unchecked(buf: Vec<u8>, index: usize) -> (o: OwnedFB<T>)
        requires
            index <= buf@.len(),
            T::spec_valid(buf@.skip(index as int)),
        ensures
            o.storage() == buf@,
            o.offset() == index,
            o.payload() == buf@.skip(index as int),
    {
        OwnedFB { buf, index, _phantom: PhantomData }
    }

    /// Adopts the `(bytes, index)` pair that collapsing a builder yields,
    /// without running the verifier.  Same trust boundary as
    /// [`OwnedFB::new_from_vec_unchecked`].
    pub fn new_from_builder_collapse(pair: (Vec<u8>, usize)) -> (o: OwnedFB<T>)
        requires
            pair.1 <= pair.0@.len(),
            T::spec_valid(pair.0@.skip(pair.1 as int)),
        ensures
            o.storage() == pair.0@,
            o.offset() == pair.1,
            o.payload() == pair.0@.skip(pair.1 as int),
    {
        Self::new_from_vec_unchecked(pair.0, pair.1)
    }

    /// Takes ownership of `buf` without copying; still verifies the payload
    /// `buf[index..]` before accepting it.  An `index` beyond the end of the
    /// vector is rejected, never clamped.
    pub fn new_from_vec(buf: Vec<u8>, index: usize) -> (r: Result<OwnedFB<T>, InvalidEncoding>)
        ensures
            r is Ok <==> index <= buf@.len() && T::spec_valid(buf@.skip(index as int)),
            r matches Ok(o) ==> o.storage() == buf@ && o.offset() == index && o.payload()
                == buf@.skip(index as int),
    {
        if index > buf.len() {
            return Err(InvalidEncoding::offset_out_of_range());
        }
        let tail = slice_subrange(buf.as_slice(), index, buf.len());
        match T::validate(tail) {
            Ok(()) => Ok(Self::new_from_vec_unchecked(buf, index)),
            Err(e) => Err(e),
        }
    }

    /// Adopts an inbound shared buffer.  When this handle is the sole owner
    /// of its storage the bytes move in without a copy; a shared handle is
    /// copied first.  Either way the payload is verified before acceptance.
    pub fn new_from_bytes(buf: bytes::Bytes) -> (r: Result<OwnedFB<T>, InvalidEncoding>)
        ensures
            r is Ok <==> T::spec_valid(bytes_seq(buf)),
            r matches Ok(o) ==> o.payload() == bytes_seq(buf) && o.offset() == 0,
    {
        let owned: Vec<u8> = match bytes_reclaim(buf) {
            Ok(v) => v,
            Err(shared) => bytes_copy_to_vec(&shared),
        };
        let r = Self::new_from_vec(owned, 0);
        proof {
            assert(owned@.skip(0) =~= owned@);
        }
        r
    }

    /// The exact byte region of the encoded value.
    pub fn get_slice(&self) -> (r: &[u8])
        ensures
            r@ == self.payload(),
            T::spec_valid(r@),
    {
        proof {
            use_type_invariant(self);
        }
        slice_subrange(self.buf.as_slice(), self.index, self.buf.len())
    }

    /// Converts this buffer into a shareable byte buffer holding exactly the
    /// payload.  Zero-copy when the backing vector's length equals its
    /// capacity and the offset is zero; otherwise the shared-buffer crate
    /// reallocates internally.  Both paths yield the same bytes.
    pub fn into_bytes(self) -> (r: bytes::Bytes)
        ensures
            bytes_seq(r) == self.payload(),
            T::spec_valid(bytes_seq(r)),
    {
        proof {
            use_type_invariant(&self);
        }
        let OwnedFB { buf, index, _phantom } = self;
        let full = bytes_from_vec(buf);
        bytes_slice_from(&full, index)
    }
}

} // verus!

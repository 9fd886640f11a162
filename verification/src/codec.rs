//! Wire codec for owned buffers.
//!
//! Encoding emits the owned bytes of a message; decoding verifies inbound
//! bytes and wraps them as a fresh owned buffer.  Each call is
//! self-contained: a decode failure fails that one message and nothing
//! else.  The transport-facing halves (buffer settings, the streaming
//! traits of the RPC stack) live outside the library and delegate here.

use vstd::prelude::*;

verus! {

use core::marker::PhantomData;
use crate::ownedfb::FbRoot;
use crate::ownedfb::InvalidEncoding;
use crate::ownedfb::OwnedFB;
use crate::shared_bytes::bytes_seq;

/// A message that can cross the wire as an owned byte buffer.
///
/// Implemented by the owned-buffer wrappers that the code generator emits
/// for each schema type; the library implements it for [`OwnedFB`] itself.
pub trait OwnedFBCodecable: Sized {
    /// Whether `bytes` is acceptable wire content for `Self`.
    spec fn spec_wire_valid(bytes: Seq<u8>) -> bool;

    /// The bytes this value puts on the wire.
    spec fn wire_bytes(self) -> Seq<u8>;

    /// Verifies inbound wire bytes and adopts them.
    fn new_from_bytes(buf: bytes::Bytes) -> (r: Result<Self, InvalidEncoding>)
        ensures
            r is Ok <==> Self::spec_wire_valid(bytes_seq(buf)),
            r matches Ok(v) ==> v.wire_bytes() == bytes_seq(buf);

    /// Emits this value's wire bytes.
    fn into_bytes(self) -> (r: bytes::Bytes)
        ensures
            bytes_seq(r) == self.wire_bytes(),
            Self::spec_wire_valid(bytes_seq(r));
}

impl<T: FbRoot> OwnedFBCodecable for OwnedFB<T> {
    open spec fn spec_wire_valid(bytes: Seq<u8>) -> bool {
        T::spec_valid(bytes)
    }

    open spec fn wire_bytes(self) -> Seq<u8> {
        self.payload()
    }

    fn new_from_bytes(buf: bytes::Bytes) -> (r: Result<Self, InvalidEncoding>) {
        OwnedFB::<T>::new_from_bytes(buf)
    }

    fn into_bytes(self) -> (r: bytes::Bytes) {
        OwnedFB::<T>::into_bytes(self)
    }
}

/// Streaming codec for request type `T` and response type `U`.
///
/// Stateless: each encode or decode call is independent of every other.
#[derive(Debug)]
pub struct FlatBuffersCodec<T, U> {
    _pd: PhantomData<(T, U)>,
}

/// The encoding half of [`FlatBuffersCodec`].
#[derive(Debug)]
pub struct FlatBuffersEncoder<T> {
    _pd: PhantomData<T>,
}

/// The decoding half of [`FlatBuffersCodec`].
#[derive(Debug)]
pub struct FlatBuffersDecoder<U> {
    _pd: PhantomData<U>,
}

impl<T, U> FlatBuffersCodec<T, U> {
    /// The one value of this stateless codec type.
    pub closed spec fn spec_default() -> FlatBuffersCodec<T, U> {
        FlatBuffersCodec { _pd: PhantomData }
    }

    /// A codec with the default per-call behaviour.
    pub fn new() -> (r: FlatBuffersCodec<T, U>)
        ensures
            r == FlatBuffersCodec::<T, U>::spec_default(),
    {
        FlatBuffersCodec { _pd: PhantomData }
    }

    /// The encoder for one direction of the stream.
    pub fn encoder(&mut self) -> FlatBuffersEncoder<T> {
        FlatBuffersEncoder { _pd: PhantomData }
    }

    /// The decoder for the other direction of the stream.
    pub fn decoder(&mut self) -> FlatBuffersDecoder<U> {
        FlatBuffersDecoder { _pd: PhantomData }
    }
}

impl<T, U> Default for FlatBuffersCodec<T, U> {
    /// The same stateless codec that [`FlatBuffersCodec::new`] gives.
    fn default() -> (r: FlatBuffersCodec<T, U>)
        ensures
            r == FlatBuffersCodec::<T, U>::spec_default(),
    {
        FlatBuffersCodec::new()
    }
}

impl<T: OwnedFBCodecable> FlatBuffersEncoder<T> {
    /// Encodes `item` by handing its owned bytes onward; no copy happens at
    /// this boundary.
    pub fn encode(&mut self, item: T) -> (r: bytes::Bytes)
        ensures
            bytes_seq(r) == item.wire_bytes(),
            T::spec_wire_valid(bytes_seq(r)),
    {
        item.into_bytes()
    }
}

impl<U: OwnedFBCodecable> FlatBuffersDecoder<U> {
    /// Decodes one inbound message: verifies the bytes and adopts them.
    /// A failure is returned for this message alone.
    pub fn decode(&mut self, src: bytes::Bytes) -> (r: Result<U, InvalidEncoding>)
        ensures
            r is Ok <==> U::spec_wire_valid(bytes_seq(src)),
            r matches Ok(u) ==> u.wire_bytes() == bytes_seq(src),
    {
        U::new_from_bytes(src)
    }
}

/// Round trip: whatever the encoder emits for a value, the decoder accepts,
/// and the decoded value carries exactly the same wire bytes — hence the
/// same fields, since every typed field is a function of those bytes.
///
/// The hypotheses are the postconditions of [`FlatBuffersEncoder::encode`]
/// applied to `v` (it emits `wire`, which is valid wire content) and of
/// [`FlatBuffersDecoder::decode`] applied to `wire`.
pub proof fn lemma_round_trip<T: OwnedFBCodecable>(
    v: T,
    wire: Seq<u8>,
    decoded: Result<T, InvalidEncoding>,
)
    requires
        wire == v.wire_bytes(),
        T::spec_wire_valid(wire),
        decoded is Ok <==> T::spec_wire_valid(wire),
        decoded matches Ok(u) ==> u.wire_bytes() == wire,
    ensures
        decoded is Ok,
        decoded matches Ok(u) ==> u.wire_bytes() == v.wire_bytes(),
{
}

} // verus!

//! Single-use, type-tagged builder.
//!
//! [`FBBuilder`] wraps the format's append-only buffer constructor and is
//! consumed exactly once by [`FBBuilder::finish_owned`], which finishes the
//! buffer, verifies the collapsed bytes and adopts them as an [`OwnedFB`].
//!
//! The format has a documented sharp edge here: a root offset created
//! through one builder can be handed to another, with no runtime signal —
//! the finished bytes are then garbage.  This library takes the fail-fast
//! road: the finished bytes are verified before they are accepted, so a
//! mismatched root is reported as an [`InvalidEncoding`] instead of
//! becoming a buffer whose reads misbehave.  The price is one verification
//! pass per finished message.

use vstd::prelude::*;

verus! {

use core::marker::PhantomData;
use crate::ownedfb::FbRoot;
use crate::ownedfb::InvalidEncoding;
use crate::ownedfb::OwnedFB;

#[verifier::external_type_specification]
#[verifier::external_body]
#[verifier::reject_recursive_types(T)]
pub struct ExWIPOffset<T>(flatbuffers::WIPOffset<T>);

/// The format's append-only buffer constructor, held opaquely.
///
/// The builder type of the format crate carries an allocator type parameter
/// whose trait bound Verus cannot take in a declaration, so the builder
/// lives behind this struct and is reached through trusted helpers that
/// append to it.
#[verifier::external_body]
pub struct RawBuilder {
    pub(crate) inner: flatbuffers::FlatBufferBuilder<'static>,
}

/// The collapsed buffer that finishing builder `b` with its root offset at
/// position `root_pos` yields: the bytes from the collapse index to the end
/// of the returned storage.  Finishing is deterministic, so this is a
/// function of the builder's state and the position alone.
pub uninterp spec fn finish_image(b: RawBuilder, root_pos: int) -> Seq<u8>;

impl RawBuilder {
    /// Relies on `FlatBufferBuilder::new`: a fresh builder with no prior
    /// content.
    #[verifier::external_body]
    fn new() -> RawBuilder {
        RawBuilder { inner: flatbuffers::FlatBufferBuilder::new() }
    }

    /// Relies on `FlatBufferBuilder::create_string`: writes `s` into the
    /// buffer and returns the in-progress offset referring to it.
    #[verifier::external_body]
    pub fn create_string(&mut self, s: &str) -> flatbuffers::WIPOffset<&'static str> {
        self.inner.create_string(s)
    }
}

/// Relies on `WIPOffset::value`: the buffer position that an in-progress
/// offset refers to.
#[verifier::external_body]
fn wip_position<T>(o: &flatbuffers::WIPOffset<T>) -> u32 {
    o.value()
}

/// Relies on `WIPOffset::new`, `FlatBufferBuilder::finish_minimal` and
/// `FlatBufferBuilder::collapse`: finishing writes the root offset for
/// position `root_pos` in front of the built content, and collapsing hands
/// back the backing vector together with the index of the first finished
/// byte.  All three are deterministic, so the trailing region is exactly
/// the finish image of this builder at this position; nothing is claimed
/// about that image being a valid encoding.
#[verifier::external_body]
fn finish_and_collapse<T: FbRoot>(builder: RawBuilder, root_pos: u32) -> (r: (Vec<u8>, usize))
    ensures
        r.1 <= r.0@.len(),
        r.0@.skip(r.1 as int) == finish_image(builder, root_pos as int),
{
    let mut b = builder.inner;
    b.finish_minimal(flatbuffers::WIPOffset::<T>::new(root_pos));
    b.collapse()
}

/// A mutable, append-only buffer constructor bound to schema type `T`.
///
/// Created fresh per message and consumed exactly once by
/// [`FBBuilder::finish_owned`]; consuming it is what makes a second finish
/// impossible.
pub struct FBBuilder<T: FbRoot> {
    builder: RawBuilder,
    _phantom: PhantomData<T>,
}

impl<T: FbRoot> FBBuilder<T> {
    /// The state of the wrapped builder.
    pub closed spec fn builder_state(self) -> RawBuilder {
        self.builder
    }

    /// Allocates a fresh builder with no prior content.
    pub fn new() -> FBBuilder<T> {
        FBBuilder { builder: RawBuilder::new(), _phantom: PhantomData }
    }

    /// Mutable access to the underlying growable buffer, so that field
    /// construction helpers can append children bottom-up before the parent
    /// that references them.
    pub fn get_mut(&mut self) -> &mut RawBuilder {
        &mut self.builder
    }

    /// Finishes the buffer at `root` and adopts the collapsed storage as an
    /// owned buffer, consuming the builder.  The finished bytes are
    /// verified before acceptance: a root that was not created through this
    /// builder's own buffer — the format's documented sharp edge, which no
    /// runtime signal of the format itself betrays — fails that check and
    /// comes back as an error instead of a buffer whose reads misbehave.
    ///
    /// The position behind `root` is opaque here; the exact contract, with
    /// the position as a plain value, is [`FBBuilder::finish_owned_at`],
    /// which this function calls.
    pub fn finish_owned(self, root: flatbuffers::WIPOffset<T>) -> (r: Result<
        OwnedFB<T>,
        InvalidEncoding,
    >)
        ensures
            r matches Ok(o) ==> T::spec_valid(o.payload()),
            r matches Ok(o) ==> exists|p: int| o.payload() == finish_image(self.builder_state(), p),
    {
        let pos = wip_position(&root);
        self.finish_owned_at(pos)
    }

    /// Finishes the buffer with its root offset at position `root_pos`,
    /// verifies the collapsed bytes and adopts them: the result is this
    /// builder's finish image at that position exactly when that image is a
    /// valid encoding of `T`, and the reported verification failure
    /// otherwise.
    pub fn finish_owned_at(self, root_pos: u32) -> (r: Result<OwnedFB<T>, InvalidEncoding>)
        ensures
            r is Ok <==> T::spec_valid(finish_image(self.builder_state(), root_pos as int)),
            r matches Ok(o) ==> o.payload() == finish_image(self.builder_state(), root_pos as int),
    {
        let FBBuilder { builder, _phantom } = self;
        let pair = finish_and_collapse::<T>(builder, root_pos);
        OwnedFB::new_from_vec(pair.0, pair.1)
    }
}

impl<T: FbRoot> Default for FBBuilder<T> {
    /// A fresh builder, as [`FBBuilder::new`] gives.
    fn default() -> FBBuilder<T> {
        FBBuilder::new()
    }
}

} // verus!

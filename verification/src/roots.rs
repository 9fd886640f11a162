//! Concrete schema root types.
//!
//! Two generated table types are wired up here: the reflection `Schema`
//! (the binary description of services and types that the generator
//! consumes) and the reflection `KeyValue` (a small table with a required
//! string key and an optional string value).  Each gets a trusted root
//! accessor and an [`FbRoot`] impl, so an [`OwnedFB`] can hold and expose
//! its encodings.

use vstd::prelude::*;

verus! {

use flatbuffers_reflection::reflection;
use crate::ownedfb::FbRoot;
use crate::ownedfb::InvalidEncoding;
use crate::ownedfb::OwnedFB;

#[verifier::external_type_specification]
#[verifier::external_body]
pub struct ExSchema<'a>(reflection::Schema<'a>);

#[verifier::external_type_specification]
#[verifier::external_body]
pub struct ExKeyValue<'a>(reflection::KeyValue<'a>);

/// Verdict of the format's verifier on `bytes` as a `Schema` encoding
/// rooted at index 0.
pub uninterp spec fn schema_valid(bytes: Seq<u8>) -> bool;

/// Verdict of the format's verifier on `bytes` as a `KeyValue` encoding
/// rooted at index 0.
pub uninterp spec fn key_value_valid(bytes: Seq<u8>) -> bool;

/// Relies on `flatbuffers::root::<Schema>`: runs the format's verifier over
/// `buf` with the root at index 0, returns the typed root exactly when the
/// verifier accepts, and returns the error (never panics) otherwise.  The
/// verdict is a function of the bytes alone.
#[verifier::external_body]
fn schema_root<'a>(buf: &'a [u8]) -> (r: Result<
    reflection::Schema<'a>,
    flatbuffers::InvalidFlatbuffer,
>)
    ensures
        r is Ok <==> schema_valid(buf@),
{
    flatbuffers::root::<reflection::Schema>(buf)
}

/// Relies on `flatbuffers::root::<KeyValue>`: runs the format's verifier
/// over `buf` with the root at index 0, returns the typed root exactly when
/// the verifier accepts, and returns the error (never panics) otherwise.
/// The verdict is a function of the bytes alone.
#[verifier::external_body]
fn key_value_root<'a>(buf: &'a [u8]) -> (r: Result<
    reflection::KeyValue<'a>,
    flatbuffers::InvalidFlatbuffer,
>)
    ensures
        r is Ok <==> key_value_valid(buf@),
{
    flatbuffers::root::<reflection::KeyValue>(buf)
}

impl FbRoot for reflection::Schema<'static> {
    open spec fn spec_valid(bytes: Seq<u8>) -> bool {
        schema_valid(bytes)
    }

    fn validate(buf: &[u8]) -> (r: Result<(), InvalidEncoding>) {
        match schema_root(buf) {
            Ok(_) => Ok(()),
            Err(e) => Err(InvalidEncoding::from_verifier_error(e)),
        }
    }
}

impl FbRoot for reflection::KeyValue<'static> {
    open spec fn spec_valid(bytes: Seq<u8>) -> bool {
        key_value_valid(bytes)
    }

    fn validate(buf: &[u8]) -> (r: Result<(), InvalidEncoding>) {
        match key_value_root(buf) {
            Ok(_) => Ok(()),
            Err(e) => Err(InvalidEncoding::from_verifier_error(e)),
        }
    }
}

/// Relies on `reflection::KeyValue::create`: writes a `KeyValue` table with
/// the given interned key and optional value into the builder and returns
/// its in-progress offset.
#[verifier::external_body]
pub fn create_key_value(
    b: &mut crate::builder::RawBuilder,
    key: flatbuffers::WIPOffset<&'static str>,
    value: Option<flatbuffers::WIPOffset<&'static str>>,
) -> flatbuffers::WIPOffset<reflection::KeyValue<'static>> {
    reflection::KeyValue::create(
        &mut b.inner,
        &reflection::KeyValueArgs { key: Some(key), value },
    )
}

impl OwnedFB<reflection::Schema<'static>> {
    /// Typed, read-only view of the payload, borrowed for the duration of
    /// the call.  The invariant guarantees the root accessor accepts.
    pub fn get_ref<'a>(&'a self) -> reflection::Schema<'a> {
        let payload = self.get_slice();
        match schema_root(payload) {
            Ok(v) => v,
            Err(_) => vstd::pervasive::unreached(),
        }
    }
}

impl OwnedFB<reflection::KeyValue<'static>> {
    /// Typed, read-only view of the payload, borrowed for the duration of
    /// the call.  The invariant guarantees the root accessor accepts.
    pub fn get_ref<'a>(&'a self) -> reflection::KeyValue<'a> {
        let payload = self.get_slice();
        match key_value_root(payload) {
            Ok(v) => v,
            Err(_) => vstd::pervasive::unreached(),
        }
    }
}

} // verus!

//! Owned, type-tagged FlatBuffers buffers with verified construction and
//! wire-codec integration.

pub mod builder;
pub mod codec;
pub mod ownedfb;
pub mod reflect;
pub mod roots;
pub mod shared_bytes;
pub mod text;

pub use builder::FBBuilder;
pub use codec::FlatBuffersCodec;
pub use codec::OwnedFBCodecable;
pub use ownedfb::FbRoot;
pub use ownedfb::InvalidEncoding;
pub use ownedfb::OwnedFB;

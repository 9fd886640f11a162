use flatbuffers_reflection::reflection::KeyValue;
use flatbuffers_tonic::roots::create_key_value;
use flatbuffers_tonic::{FBBuilder, FlatBuffersCodec, OwnedFB};

type OwnedKeyValue = OwnedFB<KeyValue<'static>>;

#[test]
fn codec_test() {
    let mut codec = FlatBuffersCodec::<OwnedKeyValue, OwnedKeyValue>::new();
    let mut _encoder = codec.encoder();
    let mut _decoder = codec.decoder();
}

#[test]
fn codec_round_trip_test() {
    let mut fb_builder = FBBuilder::<KeyValue<'static>>::new();
    let hello = fb_builder.get_mut().create_string("hello world");
    let root = create_key_value(fb_builder.get_mut(), hello, None);
    let owned = fb_builder.finish_owned(root).unwrap();

    let mut codec = FlatBuffersCodec::<OwnedKeyValue, OwnedKeyValue>::new();
    let mut encoder = codec.encoder();
    let mut decoder = codec.decoder();

    let wire = encoder.encode(owned);
    let decoded: OwnedKeyValue = decoder.decode(wire).unwrap();
    assert_eq!(decoded.get_ref().key(), "hello world");
}

#[test]
fn default_builder_and_codec_work() {
    let mut fb_builder = FBBuilder::<KeyValue<'static>>::default();
    let hello = fb_builder.get_mut().create_string("hello world");
    let root = create_key_value(fb_builder.get_mut(), hello, None);
    let owned = fb_builder.finish_owned(root).unwrap();
    assert_eq!(owned.get_ref().key(), "hello world");

    let mut codec = FlatBuffersCodec::<OwnedKeyValue, OwnedKeyValue>::default();
    let mut _encoder = codec.encoder();
    let mut _decoder = codec.decoder();
}

#[test]
fn codec_decode_rejects_garbage() {
    let mut codec = FlatBuffersCodec::<OwnedKeyValue, OwnedKeyValue>::new();
    let mut decoder = codec.decoder();
    let junk = bytes::Bytes::from(vec![0xffu8, 0x13, 0x54, 0x00, 0x01]);
    let decoded: Result<OwnedKeyValue, _> = decoder.decode(junk);
    assert!(decoded.is_err());
}

#[test]
fn codec_decode_shared_bytes_copies() {
    let mut fb_builder = FBBuilder::<KeyValue<'static>>::new();
    let hello = fb_builder.get_mut().create_string("hello world");
    let root = create_key_value(fb_builder.get_mut(), hello, None);
    let owned = fb_builder.finish_owned(root).unwrap();
    let wire = owned.into_bytes();

    // A second handle keeps the storage shared, so decoding must copy; the
    // result is still verified and byte-identical.
    let keep = wire.clone();
    let decoded = OwnedFB::<KeyValue<'static>>::new_from_bytes(wire).unwrap();
    assert_eq!(decoded.get_slice(), &keep[..]);
    assert_eq!(decoded.get_ref().key(), "hello world");
}

use flatbuffers::FlatBufferBuilder;
use flatbuffers_reflection::reflection::{KeyValue, KeyValueArgs};
use flatbuffers_tonic::ownedfb::check_flatbuffer;
use flatbuffers_tonic::OwnedFB;

fn valid_key_value_bytes(key: &str) -> Vec<u8> {
    let mut builder = FlatBufferBuilder::new();
    let key_str = builder.create_string(key);
    let root = KeyValue::create(
        &mut builder,
        &KeyValueArgs {
            key: Some(key_str),
            value: None,
        },
    );
    builder.finish_minimal(root);
    builder.finished_data().to_vec()
}

#[test]
fn invalid_bytes_are_rejected_not_panicked() {
    // Too short to even hold a root offset.
    assert!(OwnedFB::<KeyValue<'static>>::new(&[]).is_err());
    assert!(OwnedFB::<KeyValue<'static>>::new(&[7u8]).is_err());
    // A root offset pointing nowhere useful.
    assert!(OwnedFB::<KeyValue<'static>>::new(&[0xff, 0xff, 0xff, 0xff]).is_err());
    // A spread of deterministic byte patterns: every one either verifies or
    // errors; none may panic or read out of bounds.
    for seed in 0u8..64 {
        let bytes: Vec<u8> = (0u8..32)
            .map(|i| seed.wrapping_mul(31).wrapping_add(i.wrapping_mul(7)))
            .collect();
        let _ = OwnedFB::<KeyValue<'static>>::new(&bytes);
    }
}

#[test]
fn offset_beyond_storage_is_rejected() {
    let data = valid_key_value_bytes("hello world");
    let len = data.len();
    assert!(OwnedFB::<KeyValue<'static>>::new_from_vec(data, len + 1).is_err());
}

#[test]
fn truncated_encoding_is_rejected() {
    let data = valid_key_value_bytes("hello world");
    let truncated = &data[..data.len() - 3];
    assert!(OwnedFB::<KeyValue<'static>>::new(truncated).is_err());
}

#[test]
fn spare_capacity_still_round_trips_bytes() {
    // A backing vector whose capacity exceeds its length: converting into
    // shareable bytes cannot take the exact-size fast path, yet the content
    // must be byte-identical to the raw slice.
    let data = valid_key_value_bytes("hello world");
    let mut bigger: Vec<u8> = Vec::with_capacity(data.len() + 64);
    bigger.extend_from_slice(&data);
    assert!(bigger.capacity() > bigger.len());

    let owned = OwnedFB::<KeyValue<'static>>::new_from_vec(bigger, 0).unwrap();
    let snapshot = owned.get_slice().to_vec();
    let bytes = owned.into_bytes();
    assert_eq!(&bytes[..], &snapshot[..]);
}

#[test]
fn check_flatbuffer_verdicts() {
    let data = valid_key_value_bytes("hello world");
    assert!(check_flatbuffer::<KeyValue<'static>>(&data, 0).is_ok());
    assert!(check_flatbuffer::<KeyValue<'static>>(&data, data.len() + 1).is_err());
    assert!(check_flatbuffer::<KeyValue<'static>>(&data, 2).is_err());
}

#[test]
fn get_slice_matches_source_bytes() {
    let data = valid_key_value_bytes("hello world");
    let owned = OwnedFB::<KeyValue<'static>>::new(&data).unwrap();
    assert_eq!(owned.get_slice(), &data[..]);
    assert_eq!(owned.get_ref().key(), "hello world");
    assert_eq!(owned.get_ref().value(), None);
}

#[test]
fn error_message_describes_failure() {
    let err = match OwnedFB::<KeyValue<'static>>::new(&[]) {
        Ok(_) => panic!("empty buffer must not verify"),
        Err(e) => e,
    };
    assert!(!err.message().is_empty());
}

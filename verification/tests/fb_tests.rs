use flatbuffers::FlatBufferBuilder;
use flatbuffers_reflection::reflection::{KeyValue, KeyValueArgs};
use flatbuffers_tonic::roots::create_key_value;
use flatbuffers_tonic::{FBBuilder, OwnedFB};

#[test]
fn fbs_test() {
    let mut builder = FlatBufferBuilder::new();

    let bar_str = builder.create_string("hello world");

    let req = KeyValue::create(
        &mut builder,
        &KeyValueArgs {
            key: Some(bar_str),
            value: None,
        },
    );
    builder.finish_minimal(req);

    let req = builder.finished_data();

    let boxed_buff = req.to_owned().into_boxed_slice();
    {
        let req_x = flatbuffers::root::<KeyValue>(&boxed_buff).unwrap();
        assert_eq!(req_x.key(), "hello world");
    }
    {
        let owned = OwnedFB::<KeyValue<'static>>::new(&boxed_buff).unwrap();
        let req_x = owned.get_ref();
        assert_eq!(req_x.key(), "hello world");
    }
    {
        let owned = OwnedFB::<KeyValue<'static>>::new_from_vec(boxed_buff.to_vec(), 0).unwrap();
        let req_x = owned.get_ref();
        assert_eq!(req_x.key(), "hello world");
    }
    // Move the data
    {
        let mut builder = FlatBufferBuilder::new();

        let bar_str = builder.create_string("hello world2");

        let req = KeyValue::create(
            &mut builder,
            &KeyValueArgs {
                key: Some(bar_str),
                value: None,
            },
        );
        builder.finish_minimal(req);
        let owned = OwnedFB::<KeyValue<'static>>::new_from_builder_collapse(builder.collapse());
        let req_x = owned.get_ref();
        assert_eq!(req_x.key(), "hello world2");
    }
    // Check the offset of vector.
    {
        let mut builder = FlatBufferBuilder::new();

        let bar_str = builder.create_string("hello world2");

        let req = KeyValue::create(
            &mut builder,
            &KeyValueArgs {
                key: Some(bar_str),
                value: None,
            },
        );
        builder.finish_minimal(req);
        let buf = builder.finished_data().to_vec();
        // This condition can ensure the encode to bytes is zero copy.
        assert_eq!(buf.capacity(), buf.len());
        let owned = OwnedFB::<KeyValue<'static>>::new_from_bytes(buf.into()).unwrap();
        let bytes = owned.into_bytes();
        bytes
            .try_into_mut()
            .expect("Should have the full ownership of the vec");
    }
}

#[test]
fn fbs_builder_test() {
    let mut fb_builder = FBBuilder::<KeyValue<'static>>::new();
    let bar_str = fb_builder.get_mut().create_string("hello world");
    let req = create_key_value(fb_builder.get_mut(), bar_str, None);
    let owned = fb_builder.finish_owned(req).unwrap();
    let req_x = owned.get_ref();
    assert_eq!(req_x.key(), "hello world");
}

#[test]
fn fbs_builder_at_position_test() {
    // Finishing at the root's numeric position is the same operation as
    // finishing at the root offset itself.
    let mut fb_builder = FBBuilder::<KeyValue<'static>>::new();
    let bar_str = fb_builder.get_mut().create_string("hello world");
    let req = create_key_value(fb_builder.get_mut(), bar_str, None);
    let owned = fb_builder.finish_owned_at(*req).unwrap();
    assert_eq!(owned.get_ref().key(), "hello world");

    let mut fb_builder2 = FBBuilder::<KeyValue<'static>>::new();
    let bar_str2 = fb_builder2.get_mut().create_string("hello world");
    let req2 = create_key_value(fb_builder2.get_mut(), bar_str2, None);
    let owned2 = fb_builder2.finish_owned(req2).unwrap();
    assert_eq!(owned.get_slice(), owned2.get_slice());
}

// This demos that mixing roots across builders is caught when finishing.
#[test]
fn fbs_builder_mismatch_test() {
    let mut fb_builder = FBBuilder::<KeyValue<'static>>::new();
    let bar_str = fb_builder.get_mut().create_string("hello world");
    let _req = create_key_value(fb_builder.get_mut(), bar_str, None);

    let mut fb_builder2 = FBBuilder::<KeyValue<'static>>::new();
    let bar_str2 = fb_builder2.get_mut().create_string("hello world2");
    let req2 = create_key_value(fb_builder2.get_mut(), bar_str2, None);
    // Use req2 for builder with a mismatch. Ideally this should fail to compile.
    // The mismatched root does not point at this builder's own content, the
    // finished bytes are not a valid encoding, and finishing reports that
    // instead of handing out a buffer whose reads misbehave.
    let owned = fb_builder.finish_owned(req2);
    assert!(owned.is_err());
}

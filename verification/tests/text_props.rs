use flatbuffers_tonic::reflect::{collect_in_out_types, GeneratorContext, Method, Service};
use flatbuffers_tonic::text::{has_attr, last_segment, namespace_to_path, split_namespace};

fn method(name: &str, request: &str, response: &str) -> Method {
    Method {
        name: name.to_string(),
        request_name: request.to_string(),
        response_name: response.to_string(),
        server_streaming: false,
        client_streaming: false,
    }
}

#[test]
fn split_namespace_cases() {
    let (ns, local) = split_namespace("fbs.helloworld.Greeter");
    assert_eq!(ns.as_deref(), Some("fbs.helloworld"));
    assert_eq!(local, "Greeter");

    let (ns, local) = split_namespace("Greeter");
    assert_eq!(ns, None);
    assert_eq!(local, "Greeter");

    let (ns, local) = split_namespace(".Greeter");
    assert_eq!(ns.as_deref(), Some(""));
    assert_eq!(local, "Greeter");

    let (ns, local) = split_namespace("trailing.");
    assert_eq!(ns.as_deref(), Some("trailing"));
    assert_eq!(local, "");
}

#[test]
fn last_segment_cases() {
    assert_eq!(last_segment("fbs.helloworld.HelloRequest"), "HelloRequest");
    assert_eq!(last_segment("HelloRequest"), "HelloRequest");
    assert_eq!(last_segment(""), "");
    assert_eq!(last_segment("a.b.c"), "c");
}

#[test]
fn namespace_to_path_cases() {
    assert_eq!(namespace_to_path("fbs.helloworld"), "fbs::helloworld");
    assert_eq!(namespace_to_path("one"), "one");
    assert_eq!(namespace_to_path(""), "");
    assert_eq!(namespace_to_path("a.b.c"), "a::b::c");
}

#[test]
fn namespace_rs_is_lowercased_path() {
    let ctx = GeneratorContext {
        services: vec![Service {
            namespace: Some("Fbs.HelloWorld".to_string()),
            name: "Greeter".to_string(),
            methods: vec![],
        }],
    };
    assert_eq!(ctx.get_namespace(), "Fbs.HelloWorld");
    assert_eq!(ctx.get_namespace_rs(), "fbs::helloworld");
}

#[test]
fn has_attr_cases() {
    let attrs: Vec<(String, Option<String>)> = vec![
        ("idempotent".to_string(), None),
        ("streaming".to_string(), Some("client".to_string())),
    ];
    assert!(has_attr(&attrs, "streaming", "client"));
    assert!(!has_attr(&attrs, "streaming", "server"));
    assert!(!has_attr(&attrs, "idempotent", "client"));
    let empty: Vec<(String, Option<String>)> = vec![];
    assert!(!has_attr(&empty, "streaming", "client"));
}

#[test]
fn method_from_parts_copies_names_and_sets_flags() {
    let attrs: Vec<(String, Option<String>)> =
        vec![("streaming".to_string(), Some("client".to_string()))];
    let m = Method::from_parts(
        "client_stream".to_string(),
        "sample.client_stream_request".to_string(),
        "sample.client_stream_response".to_string(),
        &attrs,
    );
    assert_eq!(m.name, "client_stream");
    assert_eq!(m.request_name, "sample.client_stream_request");
    assert_eq!(m.response_name, "sample.client_stream_response");
    assert!(m.client_streaming);
    assert!(!m.server_streaming);

    let no_attrs: Vec<(String, Option<String>)> = vec![];
    let plain = Method::from_parts("a".to_string(), "b".to_string(), "c".to_string(), &no_attrs);
    assert!(!plain.client_streaming);
    assert!(!plain.server_streaming);
}

#[test]
fn service_from_parts_splits_recorded_name() {
    let svc = Service::from_parts("fbs.helloworld.Greeter", vec![]);
    assert_eq!(svc.namespace.as_deref(), Some("fbs.helloworld"));
    assert_eq!(svc.name, "Greeter");
    assert!(svc.methods.is_empty());

    let bare = Service::from_parts("Greeter", vec![]);
    assert_eq!(bare.namespace, None);
    assert_eq!(bare.name, "Greeter");
}

#[test]
fn is_unary_reflects_streaming_flags() {
    let mut m = method("call", "ns.Req", "ns.Resp");
    assert!(m.is_unary());
    m.client_streaming = true;
    assert!(!m.is_unary());
    m.client_streaming = false;
    m.server_streaming = true;
    assert!(!m.is_unary());
}

#[test]
fn collect_in_out_types_dedups_in_first_seen_order() {
    let services = vec![
        Service {
            namespace: Some("a".to_string()),
            name: "First".to_string(),
            methods: vec![
                method("m1", "a.Ping", "a.Pong"),
                // The response repeats an earlier type; only its first
                // appearance counts.
                method("m2", "a.Other", "a.Ping"),
            ],
        },
        Service {
            namespace: Some("b".to_string()),
            name: "Second".to_string(),
            // The same local name under another namespace is still the same
            // collected type; the first namespace wins.
            methods: vec![method("m3", "b.Ping", "b.Fresh")],
        },
    ];
    let types = collect_in_out_types(&services);
    let names: Vec<&str> = types.iter().map(|t| t.fb_type.as_str()).collect();
    assert_eq!(names, vec!["Ping", "Pong", "Other", "Fresh"]);
    assert_eq!(types[0].namespace.as_deref(), Some("a"));
    assert_eq!(types[3].namespace.as_deref(), Some("b"));
}

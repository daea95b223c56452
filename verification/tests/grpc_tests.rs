use infra_utils::grpc::reflection::{
    file_reply_files, message_template, service_names, should_continue_rounds, symbol_reply_files,
    template_default_value, DescriptorCache, FileDescriptor, ReflectionError, ReflectionReply, ResolveState,
    PoolQueryError, SymbolStart,
};
use infra_utils::grpc::{uses_tls, RawBytesCodec};
use infra_utils::json::{JsonNumber, JsonValue};
use prost_reflect::prost::Message;
use prost_reflect::prost_types::{
    field_descriptor_proto, DescriptorProto, FieldDescriptorProto, FileDescriptorProto, MethodDescriptorProto,
    ServiceDescriptorProto,
};

fn s(x: &str) -> String {
    x.to_string()
}

fn proto_bytes(name: &str, deps: &[&str]) -> Vec<u8> {
    FileDescriptorProto {
        name: Some(name.to_string()),
        dependency: deps.iter().map(|d| d.to_string()).collect(),
        ..Default::default()
    }
    .encode_to_vec()
}

fn file(name: &str, deps: &[&str]) -> FileDescriptor {
    FileDescriptor::decode(proto_bytes(name, deps)).unwrap()
}

#[test]
fn tls_is_chosen_by_scheme() {
    assert!(uses_tls("https://example.com:443"));
    assert!(!uses_tls("http://localhost:9000"));
    assert!(!uses_tls("https:/"));
}

#[test]
fn raw_codec_round_trip() {
    let mut codec = RawBytesCodec::default();
    let mut buf = vec![1u8];
    codec.encode(vec![2, 3], &mut buf);
    assert_eq!(buf, vec![1, 2, 3]);
    assert_eq!(codec.decode(&buf), Some(vec![1, 2, 3]));
    assert_eq!(codec.decode(&[]), None);
}

#[test]
fn descriptor_decodes_name_and_dependencies() {
    let f = file("a.proto", &["b.proto", "c.proto"]);
    assert_eq!(f.name.as_deref(), Some("a.proto"));
    assert_eq!(f.dependency, vec![s("b.proto"), s("c.proto")]);
    assert!(matches!(FileDescriptor::decode(vec![0xff, 0xff, 0xff]), Err(ReflectionError::DecodeFailed)));
}

#[test]
fn symbol_resolution_with_cache() {
    let mut cache = DescriptorCache::new();
    let mut state = ResolveState::new();
    assert_eq!(state.begin_symbol(&cache, "pkg.Service"), SymbolStart::Fetch);
    assert_eq!(state.begin_symbol(&cache, "pkg.Service"), SymbolStart::AlreadyProcessed);
    let deps = state.absorb_symbol_files(vec![file("svc.proto", &["msg.proto", "svc.proto"])]);
    assert_eq!(deps, vec![s("msg.proto")]);
    assert!(state.needs_fetch("msg.proto"));
    let mut next = Vec::new();
    state.absorb_dependency("msg.proto", vec![file("msg.proto", &["common.proto"])], &mut next);
    assert_eq!(next, vec![s("common.proto")]);
    assert!(!state.needs_fetch("msg.proto"));
    assert_eq!(state.file_descriptors.len(), 2);
    let unseen = state.unseen_symbols(&vec![s("pkg.Service"), s("pkg.Msg")]);
    assert_eq!(unseen, vec![s("pkg.Msg")]);
    cache.record_symbol("pkg.Service", &state.file_descriptors);
    assert!(cache.has_symbol("pkg.Service"));
    assert_eq!(cache.processed_files(), vec![s("svc.proto"), s("msg.proto")]);
    assert!(cache.cached_file("msg.proto").is_some());
    assert!(cache.cached_file("nope.proto").is_none());

    let mut second = ResolveState::new();
    assert_eq!(second.begin_symbol(&cache, "pkg.Service"), SymbolStart::CacheHit);
    assert_eq!(second.file_descriptors.len(), 2);
    assert_eq!(second.processed_files, vec![s("svc.proto"), s("msg.proto")]);
}

#[test]
fn cache_never_duplicates_files() {
    let mut cache = DescriptorCache::new();
    cache.record_files(&vec![file("a.proto", &[]), file("a.proto", &[])]);
    cache.record_files(&vec![file("a.proto", &[]), file("b.proto", &[])]);
    assert_eq!(cache.processed_files(), vec![s("a.proto"), s("b.proto")]);
}

#[test]
fn dependency_rounds_are_bounded() {
    assert!(should_continue_rounds(&vec![s("x")], 0));
    assert!(should_continue_rounds(&vec![s("x")], 29));
    assert!(!should_continue_rounds(&vec![s("x")], 30));
    assert!(!should_continue_rounds(&vec![], 0));
}

#[test]
fn replies_are_classified() {
    assert!(matches!(symbol_reply_files(None), Ok(None)));
    let r = symbol_reply_files(Some(ReflectionReply::FileDescriptors(vec![proto_bytes("a.proto", &[])]))).unwrap();
    assert_eq!(r.unwrap().len(), 1);
    assert!(matches!(symbol_reply_files(Some(ReflectionReply::Other)), Err(ReflectionError::UnexpectedResponse)));
    assert!(matches!(file_reply_files("x.proto", None), Err(ReflectionError::NoResponse { file }) if file == "x.proto"));
    assert!(matches!(
        file_reply_files("x.proto", Some(ReflectionReply::Error { message: s("not found"), code: 5 })),
        Err(ReflectionError::ServerError { file, message, code: 5 }) if file == "x.proto" && message == "not found"
    ));
    assert_eq!(service_names(Some(ReflectionReply::Services(vec![s("a.S")]))).unwrap(), vec![s("a.S")]);
    assert!(matches!(service_names(None), Err(ReflectionError::ServiceListUnavailable)));
}

#[test]
fn template_values_by_kind() {
    assert!(matches!(template_default_value("Bool"), JsonValue::Bool(false)));
    assert!(matches!(template_default_value("Int32"), JsonValue::Number(JsonNumber::PosInt(0))));
    assert!(matches!(template_default_value("Sfixed32"), JsonValue::Number(JsonNumber::PosInt(0))));
    assert!(matches!(template_default_value("Uint64"), JsonValue::String(v) if v == "0"));
    assert!(matches!(template_default_value("Double"), JsonValue::Number(JsonNumber::Float(0))));
    assert!(matches!(template_default_value("String"), JsonValue::String(v) if v == "string"));
    assert!(matches!(template_default_value("Bytes"), JsonValue::String(v) if v == "base64encoded"));
    assert!(matches!(template_default_value("Message(MessageDescriptor { .. })"), JsonValue::Object(v) if v.is_empty()));
    assert!(matches!(template_default_value("Enum(E)"), JsonValue::Number(JsonNumber::PosInt(0))));
    assert!(matches!(template_default_value("Group"), JsonValue::Null));
}

#[test]
fn template_uses_json_names() {
    let t = message_template(&vec![(s("Bool"), s("excludeRunner")), (s("Bool"), s("excludeWorker"))]);
    assert_eq!(t.len(), 2);
    assert!(matches!(t.get("excludeRunner"), Some(JsonValue::Bool(false))));
    assert!(matches!(t.get("excludeWorker"), Some(JsonValue::Bool(false))));
}

fn message_file(name: &str, package: &str, messages: &[&str], deps: &[&str]) -> FileDescriptor {
    let message_type = messages
        .iter()
        .map(|m| DescriptorProto { name: Some(m.to_string()), ..Default::default() })
        .collect();
    let bytes = FileDescriptorProto {
        name: Some(name.to_string()),
        package: Some(package.to_string()),
        dependency: deps.iter().map(|d| d.to_string()).collect(),
        message_type,
        syntax: Some("proto3".to_string()),
        ..Default::default()
    }
    .encode_to_vec();
    FileDescriptor::decode(bytes).unwrap()
}

#[test]
fn additional_symbols_come_from_the_pool() {
    let mut state = ResolveState::new();
    assert!(state.extract_additional_symbols().is_empty());
    state.file_descriptors.push(message_file("m.proto", "pkg", &["A", "B"], &[]));
    assert_eq!(state.extract_additional_symbols(), vec![s("pkg.A"), s("pkg.B")]);
    state.processed_symbols.push(s("pkg.A"));
    assert_eq!(state.extract_additional_symbols(), vec![s("pkg.B")]);
    // A file that imports a file not collected yet does not make a pool.
    state.file_descriptors.push(message_file("n.proto", "other", &["C"], &["missing.proto"]));
    assert!(state.extract_additional_symbols().is_empty());
}

#[test]
fn rounds_close_over_dependencies() {
    let cache = DescriptorCache::new();
    let mut state = ResolveState::new();
    assert_eq!(state.begin_symbol(&cache, "pkg.Service"), SymbolStart::Fetch);
    let mut pending = state.absorb_symbol_files(vec![file("svc.proto", &["a.proto", "b.proto"])]);
    let served = |name: &str| match name {
        "a.proto" => vec![file("a.proto", &["c.proto"])],
        "b.proto" => vec![file("b.proto", &["c.proto", "a.proto"])],
        _ => vec![file(name, &[])],
    };
    let mut rounds = 0;
    while should_continue_rounds(&pending, rounds) {
        rounds += 1;
        let mut next = Vec::new();
        for dependency in pending {
            if state.needs_fetch(&dependency) {
                state.absorb_dependency(&dependency, served(&dependency), &mut next);
            }
        }
        pending = next;
    }
    assert!(pending.is_empty());
    for f in &state.file_descriptors {
        for d in &f.dependency {
            assert!(!state.needs_fetch(d), "{d} should be processed");
        }
    }
    assert_eq!(state.processed_files, vec![s("svc.proto"), s("a.proto"), s("b.proto"), s("c.proto")]);
}

#[test]
fn pool_queries_over_collected_descriptors() {
    let mut field = FieldDescriptorProto {
        name: Some(s("count")),
        number: Some(1),
        json_name: Some(s("count")),
        ..Default::default()
    };
    field.set_label(field_descriptor_proto::Label::Optional);
    field.set_type(field_descriptor_proto::Type::Int32);
    let bytes = FileDescriptorProto {
        name: Some(s("svc.proto")),
        package: Some(s("pkg")),
        message_type: vec![DescriptorProto { name: Some(s("A")), field: vec![field], ..Default::default() }],
        service: vec![ServiceDescriptorProto {
            name: Some(s("S")),
            method: vec![MethodDescriptorProto {
                name: Some(s("Run")),
                input_type: Some(s(".pkg.A")),
                output_type: Some(s(".pkg.A")),
                ..Default::default()
            }],
            ..Default::default()
        }],
        syntax: Some(s("proto3")),
        ..Default::default()
    }
    .encode_to_vec();
    let mut state = ResolveState::new();
    state.file_descriptors.push(FileDescriptor::decode(bytes).unwrap());
    assert_eq!(state.service_methods("pkg.S").unwrap(), vec![s("Run")]);
    assert_eq!(state.service_methods("pkg.T"), Err(PoolQueryError::NotFound));
    assert_eq!(state.message_field_names("pkg.A").unwrap(), vec![s("count")]);
    assert_eq!(state.message_field_names("pkg.B"), Err(PoolQueryError::NotFound));
    state.file_descriptors.push(message_file("n.proto", "other", &["C"], &["missing.proto"]));
    assert_eq!(state.service_methods("pkg.S"), Err(PoolQueryError::PoolInvalid));
}

use oxiderr_codegen::details::DetailMap;
use oxiderr_codegen::instance::{ErrorReport, ErrorValue};
use oxiderr_codegen::model::KindDef;

fn io_kind() -> KindDef {
    KindDef {
        name: "IoError".to_string(),
        message: "Err-00001".to_string(),
        code: 400,
        description: "IO error".to_string(),
    }
}

fn unknown_kind() -> KindDef {
    KindDef {
        name: "UnknownError".to_string(),
        message: "Err-00002".to_string(),
        code: 500,
        description: "Unexpected error".to_string(),
    }
}

#[test]
fn kind_accessors() {
    let k = io_kind();
    assert_eq!(k.name().as_str(), "IoError");
    assert_eq!(k.message_id().as_str(), "Err-00001");
    assert_eq!(k.code(), 400);
    assert_eq!(k.description().as_str(), "IO error");
    assert_eq!(k.side(), "Client");
    assert_eq!(unknown_kind().side(), "Server");
    let edge = KindDef {
        name: "EdgeError".to_string(),
        message: "Err-00003".to_string(),
        code: 499,
        description: "Edge".to_string(),
    };
    assert_eq!(edge.side(), "Client");
}

#[test]
fn new_has_class_default_message_and_no_details() {
    let e = ErrorValue::new(io_kind(), "FileNotExists".to_string());
    assert_eq!(e.class().as_str(), "Client::IoError::FileNotExists");
    assert_eq!(e.message().as_str(), "IO error");
    assert!(e.details().is_none());
}

#[test]
fn new_server_side_class() {
    let e = ErrorValue::new(unknown_kind(), "Unexpected".to_string());
    assert_eq!(e.class().as_str(), "Server::UnknownError::Unexpected");
}

#[test]
fn set_message_overwrites() {
    let e = ErrorValue::new(io_kind(), "FileNotExists".to_string())
        .set_message("first".to_string())
        .set_message("second".to_string());
    assert_eq!(e.message().as_str(), "second");
    assert_eq!(e.class().as_str(), "Client::IoError::FileNotExists");
    assert!(e.details().is_none());
}

#[test]
fn set_details_overwrites_without_merging() {
    let mut d1 = DetailMap::new();
    d1.insert("a".to_string(), serde_value::Value::U64(1));
    let mut d2 = DetailMap::new();
    d2.insert("b".to_string(), serde_value::Value::U64(2));
    let e = ErrorValue::new(io_kind(), "FileNotExists".to_string())
        .set_details(d1)
        .set_details(d2);
    let d = e.details().unwrap();
    assert_eq!(d.get(&"a".to_string()), None);
    assert_eq!(d.get(&"b".to_string()), Some(&serde_value::Value::U64(2)));
}

#[test]
fn detail_map_insert_overwrites_payload() {
    let mut d = DetailMap::new();
    d.insert("k".to_string(), serde_value::Value::U64(1));
    d.insert("other".to_string(), serde_value::Value::Bool(true));
    d.insert("k".to_string(), serde_value::Value::U64(2));
    assert_eq!(d.get(&"k".to_string()), Some(&serde_value::Value::U64(2)));
    assert_eq!(d.get(&"other".to_string()), Some(&serde_value::Value::Bool(true)));
    assert_eq!(d.get(&"absent".to_string()), None);
}

#[test]
fn display_matches_template() {
    let e = ErrorValue::new(io_kind(), "FileNotExists".to_string())
        .set_message("No such file or directory".to_string());
    let s = e.display_string();
    assert_eq!(s, "[Err-00001] FileNotExists (400): No such file or directory");
    assert!(s.contains("(400): No such file or directory"));
    assert!(s.contains("Err-00001"));
}

#[test]
fn display_renders_code_edges() {
    let zero = KindDef {
        name: "ZeroError".to_string(),
        message: "Err-0".to_string(),
        code: 0,
        description: "zero".to_string(),
    };
    let e = ErrorValue::new(zero, "Z".to_string());
    assert_eq!(e.display_string(), "[Err-0] Z (0): zero");
    let big = KindDef {
        name: "BigError".to_string(),
        message: "Err-9".to_string(),
        code: 65535,
        description: "big".to_string(),
    };
    let e = ErrorValue::new(big, "B".to_string());
    assert_eq!(e.display_string(), "[Err-9] B (65535): big");
}

fn serialized_cleared(class: &str, message: &str) -> serde_value::Value {
    serde_value::to_value(oxiderr::Error {
        kind: oxiderr::ErrorKind("X", "Y", 9, "Z"),
        class: class.to_string(),
        message: message.to_string(),
        details: None,
    })
    .unwrap()
}

#[test]
fn convert_embeds_serialized_origin() {
    let mut source_details = DetailMap::new();
    source_details.insert("foo".to_string(), serde_value::Value::String("bar".to_string()));
    let source = ErrorReport {
        kind: io_kind(),
        class: "Client::IoError::FileRead".to_string(),
        message: "boom".to_string(),
        details: Some(source_details),
    };
    let e = ErrorValue::convert(unknown_kind(), "Unexpected".to_string(), source).unwrap();
    assert_eq!(e.class().as_str(), "Server::UnknownError::Unexpected");
    assert_eq!(e.message().as_str(), "Unexpected error");
    let d = e.details().unwrap();
    assert_eq!(
        d.get(&"foo".to_string()),
        Some(&serde_value::Value::String("bar".to_string()))
    );
    let expected = serialized_cleared("Client::IoError::FileRead", "boom");
    assert_eq!(d.get(&"origin".to_string()), Some(&expected));
}

#[test]
fn convert_overwrites_prior_origin() {
    let mut source_details = DetailMap::new();
    source_details.insert("origin".to_string(), serde_value::Value::Bool(false));
    source_details.insert("keep".to_string(), serde_value::Value::U64(7));
    let source = ErrorReport {
        kind: io_kind(),
        class: "Client::IoError::FileRead".to_string(),
        message: "boom".to_string(),
        details: Some(source_details),
    };
    let e = ErrorValue::convert(io_kind(), "FileNotExists".to_string(), source).unwrap();
    let d = e.details().unwrap();
    let expected = serialized_cleared("Client::IoError::FileRead", "boom");
    assert_eq!(d.get(&"origin".to_string()), Some(&expected));
    assert_ne!(d.get(&"origin".to_string()), Some(&serde_value::Value::Bool(false)));
    assert_eq!(d.get(&"keep".to_string()), Some(&serde_value::Value::U64(7)));
}

#[test]
fn convert_without_source_details_starts_empty() {
    let source = ErrorReport {
        kind: io_kind(),
        class: "Client::IoError::FileRead".to_string(),
        message: "boom".to_string(),
        details: None,
    };
    let e = ErrorValue::convert(io_kind(), "FileNotExists".to_string(), source).unwrap();
    let d = e.details().unwrap();
    let expected = serialized_cleared("Client::IoError::FileRead", "boom");
    assert_eq!(d.get(&"origin".to_string()), Some(&expected));
    assert_eq!(d.get(&"class".to_string()), None);
}

#[test]
fn two_types_same_kind_differ_only_in_trailing_segment() {
    let a = ErrorValue::new(io_kind(), "FileRead".to_string());
    let b = ErrorValue::new(io_kind(), "FileNotExists".to_string());
    assert_ne!(a.class().as_str(), b.class().as_str());
    assert!(a.class().starts_with("Client::IoError::"));
    assert!(b.class().starts_with("Client::IoError::"));
    assert_eq!(a.class().as_str(), "Client::IoError::FileRead");
    assert_eq!(b.class().as_str(), "Client::IoError::FileNotExists");
}

#[test]
fn kind_and_type_name_accessors() {
    let e = ErrorValue::new(io_kind(), "FileNotExists".to_string());
    assert_eq!(e.kind().name().as_str(), "IoError");
    assert_eq!(e.typename().as_str(), "FileNotExists");
}

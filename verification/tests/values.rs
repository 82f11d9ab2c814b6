//! Document operations and serialized sizes on concrete values.

use change_feed::document::{Bson, Document, Timestamp};

fn doc(entries: Vec<(&str, Bson)>) -> Document {
    let mut d = Document::new();
    for (k, v) in entries {
        d.insert(k.to_string(), v);
    }
    d
}

#[test]
fn test_scalar_lengths() {
    assert_eq!(Bson::I32(1i32).byte_length().unwrap(), 4);
    assert_eq!(Bson::I64(1i64).byte_length().unwrap(), 8);
    assert_eq!(Bson::FloatingPoint(2.0f64.to_bits()).byte_length().unwrap(), 8);
    assert_eq!(Bson::FloatingPoint(2.0f64.to_bits()).byte_length().unwrap(), 8);
    assert_eq!(Bson::Null.byte_length().unwrap(), 0);
    assert_eq!(Bson::Boolean(true).byte_length().unwrap(), 1);
    assert_eq!(
        Bson::ObjectId([0x51, 0x2a, 0x67, 0x00, 0x11, 0x22, 0x33, 0x44, 0x55, 0x66, 0x77, 0x88])
            .byte_length()
            .unwrap(),
        12
    );
    // 2012-06-02T01:12:00.000Z in milliseconds since the epoch.
    assert_eq!(Bson::UtcDatetime(1338599520000i64).byte_length().unwrap(), 8);
    assert_eq!(Bson::TimeStamp(Timestamp { t: 0, i: 4 }).byte_length().unwrap(), 8);
}

#[test]
fn test_string_length() {
    assert_eq!(Bson::String(String::from("hello")).byte_length().unwrap(), 10);
    assert_eq!(Bson::Symbol(String::from("hello")).byte_length().unwrap(), 10);
    assert_eq!(Bson::Binary(0x00, b"12345".to_vec()).byte_length().unwrap(), 10);
    assert_eq!(Bson::JavaScriptCode("alert(\"hello\");".into()).byte_length().unwrap(), 20);
    assert_eq!(
        Bson::JavaScriptCodeWithScope("alert(\"hello\");".into(), Document::new())
            .byte_length()
            .unwrap(),
        29
    );
}

#[test]
fn test_document_lengths() {
    assert_eq!(Document::new().byte_length().unwrap(), 5);
    assert_eq!(doc(vec![("answer", Bson::I32(42))]).byte_length().unwrap(), 17);
}

#[test]
fn test_array_lengths() {
    for (ct, expected_len) in vec![(16, 123), (110, 885)] {
        let arr = Bson::Array((0..ct).map(Bson::I32).collect::<Vec<_>>());
        assert_eq!(arr.byte_length().unwrap(), expected_len,);
    }
}

#[test]
fn test_complex_document() {
    let driver = doc(vec![
        ("name", Bson::String("mongo-rust-driver-prototype".into())),
        ("version", Bson::String("0.4.0".into())),
    ]);
    let os = doc(vec![
        ("type", Bson::String("linux".into())),
        ("architecture", Bson::String("x86_64".into())),
    ]);
    let client = doc(vec![("driver", Bson::Document(driver)), ("os", Bson::Document(os))]);
    let d = doc(vec![("isMaster", Bson::I32(1)), ("client", Bson::Document(client))]);
    assert_eq!(d.byte_length().unwrap(), 152,);
}

#[test]
fn insert_replaces_in_place() {
    let mut d = doc(vec![("a", Bson::I32(1)), ("b", Bson::I32(2)), ("c", Bson::I32(3))]);
    d.insert("b".to_string(), Bson::I32(9));
    assert_eq!(
        d,
        doc(vec![("a", Bson::I32(1)), ("b", Bson::I32(9)), ("c", Bson::I32(3))])
    );
}

#[test]
fn insert_appends_new_key() {
    let mut d = doc(vec![("a", Bson::I32(1))]);
    d.insert("b".to_string(), Bson::I32(2));
    assert_eq!(d, doc(vec![("a", Bson::I32(1)), ("b", Bson::I32(2))]));
}

#[test]
fn remove_drops_entry() {
    let mut d = doc(vec![("a", Bson::I32(1)), ("b", Bson::I32(2))]);
    d.remove(&"a".to_string());
    assert_eq!(d, doc(vec![("b", Bson::I32(2))]));
    d.remove(&"zz".to_string());
    assert_eq!(d, doc(vec![("b", Bson::I32(2))]));
}

#[test]
fn get_finds_value() {
    let d = doc(vec![("a", Bson::I32(1)), ("b", Bson::Boolean(true))]);
    assert_eq!(d.get(&"b".to_string()), Some(&Bson::Boolean(true)));
    assert_eq!(d.get(&"zz".to_string()), None);
    assert!(d.contains_key(&"a".to_string()));
    assert!(!d.contains_key(&"zz".to_string()));
}

#[test]
fn deep_clone_is_equal() {
    let d = doc(vec![
        ("a", Bson::Array(vec![Bson::I32(1), Bson::String("x".into())])),
        ("b", Bson::Document(doc(vec![("inner", Bson::Null)]))),
    ]);
    assert_eq!(d.deep_clone(), d);
    let v = Bson::Binary(3, vec![1, 2, 3]);
    assert_eq!(v.deep_clone(), v);
}

#[test]
fn encode_simple_document_bytes() {
    let d = doc(vec![("answer", Bson::I32(42))]);
    assert_eq!(
        d.to_bytes().unwrap(),
        vec![17, 0, 0, 0, 0x10, 97, 110, 115, 119, 101, 114, 0, 42, 0, 0, 0, 0]
    );
}

#[test]
fn encode_array_document_bytes() {
    let d = doc(vec![("a", Bson::Array(vec![Bson::I32(7)]))]);
    assert_eq!(
        d.to_bytes().unwrap(),
        vec![
            20, 0, 0, 0, // document frame
            0x04, 97, 0, // array under key "a"
            12, 0, 0, 0, // array frame
            0x10, 48, 0, // element under key "0"
            7, 0, 0, 0, // the element
            0, 0, // both terminators
        ]
    );
}

#[test]
fn encoded_length_matches_byte_length() {
    let d = doc(vec![
        ("s", Bson::String("hé".to_string())),
        ("n", Bson::Document(doc(vec![("x", Bson::Boolean(false))]))),
        ("b", Bson::Binary(0, vec![9, 9])),
        ("t", Bson::TimeStamp(Timestamp { t: 1, i: 2 })),
    ]);
    assert_eq!(d.to_bytes().unwrap().len() as i32, d.byte_length().unwrap());
}

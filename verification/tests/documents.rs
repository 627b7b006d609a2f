use simple_mod_framework_installer::json::Json;

#[test]
fn parse_reads_an_object() {
    let doc = Json::parse(b"{\"a\": \"x\", \"b\": [true, null, 12, \"y\"]}").unwrap();
    assert_eq!(doc.member_text("a").map(|s| s.as_str()), Some("x"));
    let b = doc.member("b").unwrap();
    assert!(matches!(b.element(0), Some(Json::Bool(true))));
    assert!(matches!(b.element(1), Some(Json::Null)));
    match b.element(2) {
        Some(Json::Number(n)) => assert_eq!(n, "12"),
        other => panic!("unexpected element: {:?}", other),
    }
    assert_eq!(b.element(3).and_then(|v| v.text()).map(|s| s.as_str()), Some("y"));
    assert!(b.element(4).is_none());
}

#[test]
fn parse_rejects_what_is_not_json() {
    assert!(Json::parse(b"").is_none());
    assert!(Json::parse(b"{\"a\": ").is_none());
    assert!(Json::parse(b"{} trailing").is_none());
    assert!(Json::parse(&[0xff, 0xfe]).is_none());
}

#[test]
fn parse_keeps_text_as_it_is_written() {
    let doc = Json::parse("{\"path\": \"C:\\\\Games\\\\H\u{e9}ros\"}".as_bytes()).unwrap();
    assert_eq!(doc.member_text("path").map(|s| s.as_str()), Some("C:\\Games\\H\u{e9}ros"));
}

#[test]
fn member_is_found_by_its_key_only_in_objects() {
    let object = Json::Object(vec![
        ("first".to_owned(), Json::Text("1".to_owned())),
        ("second".to_owned(), Json::Text("2".to_owned())),
    ]);
    assert_eq!(object.member("second").and_then(|v| v.text()).map(|s| s.as_str()), Some("2"));
    assert!(object.member("third").is_none());
    assert!(object.member("Second").is_none());
    assert!(object.element(0).is_none());
    let array = Json::Array(vec![Json::Text("x".to_owned())]);
    assert!(array.member("0").is_none());
    assert!(Json::Text("first".to_owned()).member("first").is_none());
}

#[test]
fn member_takes_the_first_of_equal_keys() {
    let object = Json::Object(vec![
        ("k".to_owned(), Json::Text("one".to_owned())),
        ("k".to_owned(), Json::Text("two".to_owned())),
    ]);
    assert_eq!(object.member_text("k").map(|s| s.as_str()), Some("one"));
}

#[test]
fn text_is_given_for_strings_only() {
    assert_eq!(Json::Text("t".to_owned()).text().map(|s| s.as_str()), Some("t"));
    assert!(Json::Number("1".to_owned()).text().is_none());
    assert!(Json::Null.text().is_none());
    assert!(Json::Bool(false).text().is_none());
    assert!(Json::Array(vec![]).text().is_none());
    assert!(Json::Object(vec![]).text().is_none());
}

#[test]
fn member_text_is_none_for_a_member_that_is_no_string() {
    let doc = Json::parse(b"{\"n\": 5, \"o\": {}}").unwrap();
    assert!(doc.member_text("n").is_none());
    assert!(doc.member_text("o").is_none());
    assert!(doc.member_text("missing").is_none());
}

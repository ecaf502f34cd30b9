use discord_chatbot::json::{parse_json, Json};

fn object(members: Vec<(&str, Json)>) -> Json {
    Json::Object(members.into_iter().map(|(key, value)| (key.to_string(), value)).collect())
}

fn text(value: &str) -> Json {
    Json::Text(value.to_string())
}

#[test]
fn document_is_read_as_a_tree() {
    let parsed = parse_json(b"{\"b\":[1,-2,2.5,true,null],\"a\":\"x\"}").unwrap();
    assert_eq!(
        parsed,
        object(vec![
            ("a", text("x")),
            (
                "b",
                Json::Array(vec![
                    Json::Number(Some(1)),
                    Json::Number(Some(-2)),
                    Json::Number(None),
                    Json::Bool(true),
                    Json::Null,
                ])
            ),
        ])
    );
}

#[test]
fn text_that_is_no_document_is_rejected() {
    assert_eq!(parse_json(b"{\"a\":"), None);
    assert_eq!(parse_json(b""), None);
    assert_eq!(parse_json(b"{} {}"), None);
    assert_eq!(parse_json(&[0xff, 0xfe]), None);
}

#[test]
fn white_space_around_a_document_is_allowed() {
    assert_eq!(parse_json(b" {} \n\n"), Some(Json::Object(Vec::new())));
}

#[test]
fn number_too_large_for_64_bits_is_no_integer() {
    assert_eq!(parse_json(b"18446744073709551615"), Some(Json::Number(None)));
    assert_eq!(
        parse_json(b"9223372036854775807"),
        Some(Json::Number(Some(9223372036854775807)))
    );
}

#[test]
fn escapes_in_strings_are_resolved() {
    assert_eq!(parse_json(b"\"a\\n\\u00e9\""), Some(text("a\n\u{e9}")));
}

#[test]
fn member_is_found_by_its_key() {
    let json = object(vec![("a", Json::Number(Some(1))), ("b", Json::Null)]);
    assert_eq!(json.member("a"), Some(&Json::Number(Some(1))));
    assert_eq!(json.member("b"), Some(&Json::Null));
    assert_eq!(json.member("c"), None);
    assert_eq!(Json::Null.member("a"), None);
}

#[test]
fn first_of_two_members_with_one_key_is_found() {
    let json = object(vec![("a", Json::Number(Some(1))), ("a", Json::Number(Some(2)))]);
    assert_eq!(json.member("a"), Some(&Json::Number(Some(1))));
}

#[test]
fn null_member_is_not_present() {
    let json = object(vec![("a", Json::Number(Some(1))), ("b", Json::Null)]);
    assert_eq!(json.present("a"), Some(&Json::Number(Some(1))));
    assert_eq!(json.present("b"), None);
    assert_eq!(json.present("c"), None);
}

#[test]
fn unsigned_number_bounds() {
    assert_eq!(Json::Number(Some(0)).unsigned32(), Some(0));
    assert_eq!(Json::Number(Some(4294967295)).unsigned32(), Some(4294967295));
    assert_eq!(Json::Number(Some(4294967296)).unsigned32(), None);
    assert_eq!(Json::Number(Some(-1)).unsigned32(), None);
    assert_eq!(Json::Number(None).unsigned32(), None);
    assert_eq!(text("1").unsigned32(), None);
}

#[test]
fn signed_number_bounds() {
    assert_eq!(Json::Number(Some(-2147483648)).signed32(), Some(-2147483648));
    assert_eq!(Json::Number(Some(2147483647)).signed32(), Some(2147483647));
    assert_eq!(Json::Number(Some(2147483648)).signed32(), None);
    assert_eq!(Json::Number(Some(-2147483649)).signed32(), None);
}

#[test]
fn required_and_optional_members() {
    let json = object(vec![
        ("name", text("n")),
        ("count", Json::Number(Some(3))),
        ("nothing", Json::Null),
    ]);
    assert_eq!(json.required_text("name"), Some("n".to_string()));
    assert_eq!(json.required_text("count"), None);
    assert_eq!(json.required_text("missing"), None);
    assert_eq!(json.required_text("nothing"), None);
    assert_eq!(json.required_unsigned32("count"), Some(3));
    assert_eq!(json.required_unsigned32("name"), None);
    assert_eq!(json.optional_text("name"), Some(Some("n".to_string())));
    assert_eq!(json.optional_text("missing"), Some(None));
    assert_eq!(json.optional_text("nothing"), Some(None));
    assert_eq!(json.optional_text("count"), None);
    assert_eq!(json.optional_unsigned32("count"), Some(Some(3)));
    assert_eq!(json.optional_unsigned32("missing"), Some(None));
    assert_eq!(json.optional_unsigned32("name"), None);
}

#[test]
fn kinds_are_told_apart() {
    assert!(object(vec![]).is_object());
    assert!(!Json::Array(vec![]).is_object());
    assert_eq!(Json::Array(vec![Json::Null]).items(), Some(&vec![Json::Null]));
    assert_eq!(object(vec![]).items(), None);
    assert_eq!(text("x").text(), Some(&"x".to_string()));
    assert_eq!(Json::Null.text(), None);
}

use composer::json::{str_eq, u8_from_dec, u8_to_dec, DecodeError, JsonValue};
use composer::php_array::PhpArray;
use composer::text::{json_to_text, parse_json_text};

#[test]
fn test_u8_codec_exact() {
    assert_eq!(u8_to_dec(0), "0");
    assert_eq!(u8_to_dec(7), "7");
    assert_eq!(u8_to_dec(42), "42");
    assert_eq!(u8_to_dec(255), "255");
    assert_eq!(u8_from_dec("0"), Some(0));
    assert_eq!(u8_from_dec("42"), Some(42));
    assert_eq!(u8_from_dec("255"), Some(255));
    assert_eq!(u8_from_dec("007"), None);
    assert_eq!(u8_from_dec("256"), None);
    assert_eq!(u8_from_dec("-1"), None);
    assert_eq!(u8_from_dec(""), None);
    assert_eq!(u8_from_dec("4x"), None);
}

#[test]
fn test_str_eq_by_characters() {
    assert!(str_eq("", ""));
    assert!(str_eq("abc", "abc"));
    assert!(!str_eq("abc", "abd"));
    assert!(!str_eq("abc", "ab"));
    assert!(str_eq("héllo", "héllo"));
    assert!(!str_eq("héllo", "hallo"));
}

#[test]
fn test_parse_then_print_keeps_the_text() {
    let text = "[1,2.5,\"x\",null,true,{\"a\":false}]";
    let v = parse_json_text(text).unwrap();
    assert_eq!(json_to_text(&v), text);
}

#[test]
fn test_parse_keeps_number_literals() {
    let v = parse_json_text("[1.50, 0.30000000000000004]").unwrap();
    match v {
        JsonValue::Array(items) => {
            assert_eq!(items[0], JsonValue::Number("1.50".to_string()));
            assert_eq!(
                items[1],
                JsonValue::Number("0.30000000000000004".to_string())
            );
        },
        _ => panic!("expected an array"),
    }
}

#[test]
fn test_parse_rejects_bad_text() {
    assert!(parse_json_text("{").is_err());
    assert!(parse_json_text("").is_err());
    assert!(parse_json_text("[1,]").is_err());
}

#[test]
fn test_php_array_decodes_arrays_as_indexed() {
    let v = JsonValue::Array(vec![
        JsonValue::Str("a".to_string()),
        JsonValue::Str("b".to_string()),
    ]);
    let a = PhpArray::<String>::from_json(&v, "aliases").unwrap();
    assert_eq!(
        a,
        PhpArray::Indexed(vec!["a".to_string(), "b".to_string()])
    );
}

#[test]
fn test_php_array_decodes_objects_as_associative() {
    let v = JsonValue::Object(vec![
        ("php".to_string(), JsonValue::Str(">=8.1".to_string())),
    ]);
    let a = PhpArray::<String>::from_json(&v, "platform").unwrap();
    assert_eq!(
        a,
        PhpArray::Associative(vec![("php".to_string(), ">=8.1".to_string())])
    );
}

#[test]
fn test_php_array_empty_shapes_each_round_trip() {
    let empty_array = JsonValue::Array(vec![]);
    let a = PhpArray::<String>::from_json(&empty_array, "aliases").unwrap();
    assert_eq!(a, PhpArray::Indexed(vec![]));
    assert_eq!(a.to_json(), JsonValue::Array(vec![]));

    let empty_object = JsonValue::Object(vec![]);
    let b = PhpArray::<String>::from_json(&empty_object, "aliases").unwrap();
    assert_eq!(b, PhpArray::Associative(vec![]));
    assert_eq!(b.to_json(), JsonValue::Object(vec![]));
}

#[test]
fn test_php_array_round_trips_values() {
    let v = JsonValue::Object(vec![
        ("ext-curl".to_string(), JsonValue::Str("*".to_string())),
        ("php".to_string(), JsonValue::Str(">=8.0".to_string())),
    ]);
    let a = PhpArray::<String>::from_json(&v, "platform").unwrap();
    assert_eq!(a.to_json(), v);
}

#[test]
fn test_php_array_rejects_mixed_items() {
    let v = JsonValue::Array(vec![
        JsonValue::Str("a".to_string()),
        JsonValue::Bool(true),
    ]);
    let r = PhpArray::<String>::from_json(&v, "aliases");
    assert!(matches!(r, Err(DecodeError::WrongType(_))));
}

#[test]
fn test_php_u8_array_round_trips() {
    let v = JsonValue::Object(vec![
        ("a/b".to_string(), JsonValue::Number("20".to_string())),
    ]);
    let a = PhpArray::<u8>::from_json(&v, "stability-flags").unwrap();
    assert_eq!(
        a,
        PhpArray::Associative(vec![("a/b".to_string(), 20u8)])
    );
    assert_eq!(a.to_json(), v);

    let w = JsonValue::Array(vec![
        JsonValue::Number("0".to_string()),
        JsonValue::Number("2".to_string()),
    ]);
    let b = PhpArray::<u8>::from_json(&w, "stability-flags").unwrap();
    assert_eq!(b, PhpArray::Indexed(vec![0u8, 2u8]));
    assert_eq!(b.to_json(), w);
}

#[test]
fn test_php_u8_array_rejects_padded_numbers() {
    let v = JsonValue::Array(vec![JsonValue::Number("007".to_string())]);
    let r = PhpArray::<u8>::from_json(&v, "stability-flags");
    assert!(matches!(r, Err(DecodeError::InvalidNumber(_))));
}

use accountimporter::decode::{int32_member, text_member};
use serde_json::Value;

fn document(text: &str) -> Value {
    serde_json::from_str(text).unwrap()
}

#[test]
fn string_member_is_read() {
    let value = document("{\"name\": \"Home\", \"id\": 3}");
    assert_eq!(text_member(&value, "name"), Some("Home".to_string()));
    assert_eq!(text_member(&value, "id"), None);
    assert_eq!(text_member(&value, "other"), None);
    assert_eq!(text_member(&value, "Name"), None);
}

#[test]
fn string_member_keeps_escaped_characters() {
    let value = document("{\"error\": \"a \\\"b\\\" \\u00e9\\n\"}");
    assert_eq!(text_member(&value, "error"), Some("a \"b\" \u{e9}\n".to_string()));
}

#[test]
fn integer_member_is_read() {
    let value = document("{\"id\": 3, \"low\": -2147483648, \"high\": 2147483647}");
    assert_eq!(int32_member(&value, "id"), Some(3));
    assert_eq!(int32_member(&value, "low"), Some(i32::MIN));
    assert_eq!(int32_member(&value, "high"), Some(i32::MAX));
}

#[test]
fn integer_member_out_of_range_or_of_other_kind_is_not_read() {
    let value = document(
        "{\"big\": 2147483648, \"small\": -2147483649, \"huge\": 9223372036854775808, \"real\": 3.0, \"text\": \"3\", \"none\": null, \"flag\": true}",
    );
    for key in ["big", "small", "huge", "real", "text", "none", "flag", "absent"] {
        assert_eq!(int32_member(&value, key), None);
    }
}

#[test]
fn member_of_what_is_no_object_is_not_read() {
    for text in ["[\"name\"]", "\"name\"", "7", "null", "true"] {
        let value = document(text);
        assert_eq!(text_member(&value, "name"), None);
        assert_eq!(int32_member(&value, "name"), None);
    }
}

#[test]
fn last_of_repeated_members_is_read() {
    let value = document("{\"id\": 1, \"id\": 2}");
    assert_eq!(int32_member(&value, "id"), Some(2));
}

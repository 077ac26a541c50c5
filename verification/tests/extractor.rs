use errpile::{JsonVal, SerdeValue};

fn s(t: &str) -> String {
    t.to_string()
}

fn obj(pairs: Vec<(&str, JsonVal)>) -> JsonVal {
    JsonVal::Obj(pairs.into_iter().map(|(k, v)| (k.to_string(), v)).collect())
}

#[test]
fn extract_plain_error_field() {
    let v = SerdeValue(obj(vec![("error", JsonVal::Str(s("disk full")))]));
    assert_eq!(v.extract_error_from_json(), "disk full");
}

#[test]
fn extract_recurses_into_nested_object() {
    let v = SerdeValue(obj(vec![(
        "error",
        obj(vec![("message", JsonVal::Str(s("nested fail")))]),
    )]));
    assert_eq!(v.extract_error_from_json(), "nested fail");
}

#[test]
fn extract_prefers_message_over_title() {
    let v = SerdeValue(obj(vec![
        ("title", JsonVal::Str(s("Not Found"))),
        ("message", JsonVal::Str(s("resource missing"))),
    ]));
    assert_eq!(v.extract_error_from_json(), "resource missing");
}

#[test]
fn extract_prefers_error_over_message() {
    let v = SerdeValue(obj(vec![
        ("message", JsonVal::Str(s("second"))),
        ("error", JsonVal::Str(s("first"))),
    ]));
    assert_eq!(v.extract_error_from_json(), "first");
}

#[test]
fn extract_skips_non_string_candidate() {
    let v = SerdeValue(obj(vec![
        ("error", JsonVal::Num(s("5"))),
        ("message", JsonVal::Str(s("the message"))),
    ]));
    assert_eq!(v.extract_error_from_json(), "the message");
}

#[test]
fn extract_recurses_through_message_field() {
    let v = SerdeValue(obj(vec![(
        "message",
        obj(vec![("error", JsonVal::Str(s("nested")))]),
    )]));
    assert_eq!(v.extract_error_from_json(), "nested");
}

#[test]
fn extract_recurses_arbitrarily_deep() {
    let v = SerdeValue(obj(vec![(
        "error",
        obj(vec![(
            "error",
            obj(vec![("message", JsonVal::Str(s("deep")))]),
        )]),
    )]));
    assert_eq!(v.extract_error_from_json(), "deep");
}

#[test]
fn extract_falls_back_to_pretty_object() {
    let v = SerdeValue(obj(vec![("foo", JsonVal::Str(s("bar")))]));
    assert_eq!(v.extract_error_from_json(), "{\n  \"foo\": \"bar\"\n}");
}

#[test]
fn extract_reads_other_candidate_fields() {
    let v = SerdeValue(obj(vec![("err", JsonVal::Str(s("short form")))]));
    assert_eq!(v.extract_error_from_json(), "short form");
    let v = SerdeValue(obj(vec![("errorMessage", JsonVal::Str(s("camel case")))]));
    assert_eq!(v.extract_error_from_json(), "camel case");
    let v = SerdeValue(obj(vec![("reason", JsonVal::Str(s("because")))]));
    assert_eq!(v.extract_error_from_json(), "because");
}

#[test]
fn extract_empty_object_prints_itself() {
    let v = SerdeValue(obj(vec![]));
    assert_eq!(v.extract_error_from_json(), "{}");
}

#[test]
fn extract_bare_string_unchanged() {
    let v = SerdeValue(JsonVal::Str(s("plain text")));
    assert_eq!(v.extract_error_from_json(), "plain text");
}

#[test]
fn extract_number_rendered() {
    let v = SerdeValue(JsonVal::Num(s("42")));
    assert_eq!(v.extract_error_from_json(), "42");
}

#[test]
fn extract_array_rendered_compactly() {
    let v = SerdeValue(JsonVal::Arr(vec![JsonVal::Bool(true), JsonVal::Null]));
    assert_eq!(v.extract_error_from_json(), "[true,null]");
}

#[test]
fn extract_nested_empty_object_yields_its_print() {
    let v = SerdeValue(obj(vec![
        ("error", obj(vec![])),
        ("message", JsonVal::Str(s("unreached"))),
    ]));
    assert_eq!(v.extract_error_from_json(), "{}");
}

fn to_model(v: &serde_json::Value) -> JsonVal {
    match v {
        serde_json::Value::Null => JsonVal::Null,
        serde_json::Value::Bool(b) => JsonVal::Bool(*b),
        serde_json::Value::Number(n) => JsonVal::Num(n.to_string()),
        serde_json::Value::String(t) => JsonVal::Str(t.clone()),
        serde_json::Value::Array(items) => JsonVal::Arr(items.iter().map(to_model).collect()),
        serde_json::Value::Object(m) => {
            JsonVal::Obj(m.iter().map(|(k, v)| (k.clone(), to_model(v))).collect())
        }
    }
}

#[test]
fn serialization_matches_reference_crate() {
    let text = "{\"b\":[1,true,null,\"x\\\"y\\n\"],\"a\":{\"c\":-2.5,\"d\":[]},\"e\":{},\"f\":\"\\u0001\\u001f\"}";
    let value: serde_json::Value = serde_json::from_str(text).unwrap();
    let model = to_model(&value);
    assert_eq!(
        errpile::json::to_pretty_string(&model),
        serde_json::to_string_pretty(&value).unwrap()
    );
    assert_eq!(
        errpile::json::to_compact_string(&model),
        serde_json::to_string(&value).unwrap()
    );
}

#[test]
fn display_message_is_compact_body() {
    let v = SerdeValue(obj(vec![("k", JsonVal::Arr(vec![JsonVal::Num(s("1"))]))]));
    assert_eq!(v.display_message(), "{\"k\":[1]}");
}

use runx::json::{JsonNumber, JsonObject, JsonValue};
use runx::json_text::render_json;

fn to_serde(value: &JsonValue) -> serde_json::Value {
    match value {
        JsonValue::Null => serde_json::Value::Null,
        JsonValue::Bool(b) => serde_json::Value::Bool(*b),
        JsonValue::Number(JsonNumber::I64(v)) => serde_json::Value::from(*v),
        JsonValue::Number(JsonNumber::U64(v)) => serde_json::Value::from(*v),
        JsonValue::Number(JsonNumber::F64(_)) => unreachable!(),
        JsonValue::String(s) => serde_json::Value::String(s.clone()),
        JsonValue::Array(items) => serde_json::Value::Array(items.iter().map(to_serde).collect()),
        JsonValue::Object(object) => serde_json::Value::Object(
            object
                .entries
                .iter()
                .map(|(k, v)| (k.clone(), to_serde(v)))
                .collect(),
        ),
    }
}

fn obj(entries: Vec<(&str, JsonValue)>) -> JsonObject {
    JsonObject {
        entries: entries.into_iter().map(|(k, v)| (k.to_owned(), v)).collect(),
    }
}

#[test]
fn rendering_matches_serde_json() {
    let strings = [
        "plain",
        "quote \" and backslash \\",
        "tab\tnewline\nreturn\r",
        "control \u{1} \u{1f} \u{7f}",
        "unicode é \u{2028} \u{1F600}",
        "",
    ];
    for s in strings {
        let value = JsonValue::String(s.to_owned());
        assert_eq!(render_json(&value), serde_json::to_string(&to_serde(&value)).unwrap(), "{s:?}");
    }
    let value = JsonValue::Object(obj(vec![
        ("a", JsonValue::Array(vec![JsonValue::Null, JsonValue::Bool(false)])),
        ("b", JsonValue::Number(JsonNumber::I64(-42))),
        ("c", JsonValue::Number(JsonNumber::U64(u64::MAX))),
        ("d", JsonValue::Object(obj(vec![("e\"", JsonValue::String("f".to_owned()))]))),
        ("g", JsonValue::Array(Vec::new())),
        ("h", JsonValue::Object(JsonObject::new())),
    ]));
    assert_eq!(render_json(&value), serde_json::to_string(&to_serde(&value)).unwrap());
}

#[test]
fn object_members_render_in_key_order() {
    let value = JsonValue::Object(obj(vec![
        ("zeta", JsonValue::Bool(true)),
        ("Zeta", JsonValue::Null),
        ("alpha", JsonValue::Object(obj(vec![("y", JsonValue::Null), ("x", JsonValue::Null)]))),
        ("alp", JsonValue::Number(JsonNumber::U64(1))),
        ("é", JsonValue::Number(JsonNumber::I64(-1))),
    ]));
    let text = render_json(&value);
    assert_eq!(text, "{\"Zeta\":null,\"alp\":1,\"alpha\":{\"x\":null,\"y\":null},\"zeta\":true,\"é\":-1}");
    assert_eq!(text, serde_json::to_string(&to_serde(&value)).unwrap());
}

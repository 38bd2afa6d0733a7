use flutter_support::device_args::apply_device_id;
use flutter_support::json::JsonValue;

fn s(text: &str) -> JsonValue {
    JsonValue::String(text.to_string())
}

fn arr(items: Vec<JsonValue>) -> JsonValue {
    JsonValue::Array(items)
}

fn obj(fields: Vec<(&str, JsonValue)>) -> JsonValue {
    JsonValue::Object(fields.into_iter().map(|(k, v)| (k.to_string(), v)).collect())
}

#[test]
fn apply_device_id_no_existing_tool_args() {
    let mut config = obj(vec![("deviceId", s("macos"))]);
    apply_device_id(&mut config);
    assert_eq!(config.get("toolArgs"), Some(&arr(vec![s("-d"), s("macos")])));
}

#[test]
fn apply_device_id_merges_into_existing_tool_args() {
    let mut config = obj(vec![("deviceId", s("macos")), ("toolArgs", arr(vec![s("--verbose")]))]);
    apply_device_id(&mut config);
    assert_eq!(
        config.get("toolArgs"),
        Some(&arr(vec![s("-d"), s("macos"), s("--verbose")]))
    );
}

#[test]
fn apply_device_id_overwrites_non_array_tool_args() {
    let mut config = obj(vec![("deviceId", s("macos")), ("toolArgs", s("not-an-array"))]);
    apply_device_id(&mut config);
    assert_eq!(config.get("toolArgs"), Some(&arr(vec![s("-d"), s("macos")])));
}

#[test]
fn apply_device_id_rejects_leading_dash() {
    let mut config = obj(vec![("deviceId", s("--foo"))]);
    apply_device_id(&mut config);
    assert_eq!(config.get("toolArgs"), None);
}

#[test]
fn apply_device_id_does_not_duplicate_existing_device_flag() {
    let mut config = obj(vec![("deviceId", s("chrome")), ("toolArgs", arr(vec![s("-d"), s("chrome")]))]);
    apply_device_id(&mut config);
    assert_eq!(config.get("toolArgs"), Some(&arr(vec![s("-d"), s("chrome")])));
}

#[test]
fn apply_device_id_respects_long_device_flag() {
    let mut config = obj(vec![
        ("deviceId", s("macos")),
        ("toolArgs", arr(vec![s("--device-id"), s("chrome")])),
    ]);
    apply_device_id(&mut config);
    assert_eq!(
        config.get("toolArgs"),
        Some(&arr(vec![s("--device-id"), s("chrome")]))
    );
}

#[test]
fn apply_device_id_without_device_id_changes_nothing() {
    let mut config = obj(vec![("program", s("lib/main.dart"))]);
    apply_device_id(&mut config);
    assert_eq!(config, obj(vec![("program", s("lib/main.dart"))]));
}

#[test]
fn apply_device_id_ignores_non_string_device_id() {
    let mut config = obj(vec![("deviceId", JsonValue::Bool(true))]);
    apply_device_id(&mut config);
    assert_eq!(config, obj(vec![("deviceId", JsonValue::Bool(true))]));
}

#[test]
fn apply_device_id_ignores_non_object_config() {
    let mut config = arr(vec![s("deviceId"), s("macos")]);
    apply_device_id(&mut config);
    assert_eq!(config, arr(vec![s("deviceId"), s("macos")]));
}

#[test]
fn apply_device_id_accepts_empty_device_id() {
    let mut config = obj(vec![("deviceId", s(""))]);
    apply_device_id(&mut config);
    assert_eq!(config.get("toolArgs"), Some(&arr(vec![s("-d"), s("")])));
}

#[test]
fn apply_device_id_is_idempotent() {
    let mut once = obj(vec![("deviceId", s("macos")), ("toolArgs", arr(vec![s("--verbose")]))]);
    apply_device_id(&mut once);
    let mut twice = obj(vec![("deviceId", s("macos")), ("toolArgs", arr(vec![s("--verbose")]))]);
    apply_device_id(&mut twice);
    apply_device_id(&mut twice);
    assert_eq!(once, twice);
}

#[test]
fn apply_device_id_keeps_other_fields_and_order() {
    let mut config = obj(vec![
        ("request", s("launch")),
        ("toolArgs", JsonValue::Null),
        ("deviceId", s("emulator-5554")),
        ("noDebug", JsonValue::Bool(false)),
        ("timeout", JsonValue::Number(serde_json::Number::from(8080u64))),
    ]);
    apply_device_id(&mut config);
    assert_eq!(
        config,
        obj(vec![
            ("request", s("launch")),
            ("toolArgs", arr(vec![s("-d"), s("emulator-5554")])),
            ("deviceId", s("emulator-5554")),
            ("noDebug", JsonValue::Bool(false)),
            ("timeout", JsonValue::Number(serde_json::Number::from(8080u64))),
        ])
    );
}

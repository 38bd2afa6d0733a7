use flutter_support::adapter::{flutter_command, needs_flutter_lookup};
use flutter_support::adapter::{
    AttachRequest, DebugRequest, FlutterDebugAdapter, LaunchRequest, StartDebuggingRequestKind,
    ZedDebugConfig,
};
use flutter_support::json::JsonValue;

fn s(text: &str) -> JsonValue {
    JsonValue::String(text.to_string())
}

fn arr(items: Vec<JsonValue>) -> JsonValue {
    JsonValue::Array(items)
}

fn obj(fields: Vec<(&str, JsonValue)>) -> JsonValue {
    JsonValue::Object(fields.into_iter().map(|(k, v)| (k.to_string(), v)).collect())
}

#[test]
fn adapter_names() {
    assert_eq!(FlutterDebugAdapter.name(), "Flutter");
    assert_eq!(
        FlutterDebugAdapter.adapter_language_name(),
        Some("Dart".to_string())
    );
}

#[test]
fn launch_scenario_config() {
    let scenario = FlutterDebugAdapter.config_from_zed_format(ZedDebugConfig {
        label: "Run app".to_string(),
        adapter: "Flutter".to_string(),
        request: DebugRequest::Launch(LaunchRequest {
            program: "lib/main.dart".to_string(),
            cwd: Some("/work/app".to_string()),
            args: vec!["--flavor".to_string(), "dev".to_string()],
            env: vec![("API_URL".to_string(), "http://localhost".to_string())],
        }),
        stop_on_entry: Some(true),
    });
    assert_eq!(scenario.label, "Run app");
    assert_eq!(scenario.adapter, "Flutter");
    assert_eq!(
        scenario.config,
        obj(vec![
            ("request", s("launch")),
            ("env", obj(vec![("API_URL", s("http://localhost"))])),
            ("program", s("lib/main.dart")),
            ("args", arr(vec![s("--flavor"), s("dev")])),
            ("cwd", s("/work/app")),
            ("stopOnEntry", JsonValue::Bool(true)),
        ])
    );
}

#[test]
fn launch_scenario_without_cwd_or_stop() {
    let scenario = FlutterDebugAdapter.config_from_zed_format(ZedDebugConfig {
        label: "Run".to_string(),
        adapter: "Flutter".to_string(),
        request: DebugRequest::Launch(LaunchRequest {
            program: "lib/main.dart".to_string(),
            cwd: None,
            args: vec![],
            env: vec![],
        }),
        stop_on_entry: None,
    });
    assert_eq!(
        scenario.config,
        obj(vec![
            ("request", s("launch")),
            ("env", obj(vec![])),
            ("program", s("lib/main.dart")),
            ("args", arr(vec![])),
        ])
    );
}

#[test]
fn attach_scenario_config() {
    let scenario = FlutterDebugAdapter.config_from_zed_format(ZedDebugConfig {
        label: "Attach".to_string(),
        adapter: "Flutter".to_string(),
        request: DebugRequest::Attach(AttachRequest {
            process_id: Some(42),
        }),
        stop_on_entry: Some(false),
    });
    assert_eq!(
        scenario.config,
        obj(vec![
            ("request", s("attach")),
            ("stopOnEntry", JsonValue::Bool(false)),
        ])
    );
}

#[test]
fn binary_uses_config_cwd_and_device() {
    let config = obj(vec![
        ("request", s("launch")),
        ("cwd", s("/work/app")),
        ("deviceId", s("macos")),
    ]);
    let binary = FlutterDebugAdapter.debug_adapter_binary(
        "/opt/flutter/bin/flutter".to_string(),
        config,
        "/work".to_string(),
        Some(vec!["--verbose".to_string()]),
        Some(vec![("FLUTTER_ROOT".to_string(), "/opt/flutter".to_string())]),
        StartDebuggingRequestKind::Launch,
    );
    assert_eq!(binary.command, Some("/opt/flutter/bin/flutter".to_string()));
    assert_eq!(
        binary.arguments,
        vec!["debug_adapter".to_string(), "--verbose".to_string()]
    );
    assert_eq!(binary.cwd, Some("/work/app".to_string()));
    assert_eq!(
        binary.envs,
        vec![("FLUTTER_ROOT".to_string(), "/opt/flutter".to_string())]
    );
    assert_eq!(
        binary.request_args.request,
        StartDebuggingRequestKind::Launch
    );
    assert_eq!(
        binary.request_args.configuration,
        obj(vec![
            ("request", s("launch")),
            ("cwd", s("/work/app")),
            ("deviceId", s("macos")),
            ("toolArgs", arr(vec![s("-d"), s("macos")])),
        ])
    );
}

#[test]
fn binary_falls_back_to_worktree_root() {
    let config = obj(vec![("request", s("attach")), ("cwd", JsonValue::Bool(true))]);
    let binary = FlutterDebugAdapter.debug_adapter_binary(
        "flutter".to_string(),
        config,
        "/work".to_string(),
        None,
        None,
        StartDebuggingRequestKind::Attach,
    );
    assert_eq!(binary.arguments, vec!["debug_adapter".to_string()]);
    assert_eq!(binary.cwd, Some("/work".to_string()));
    assert!(binary.envs.is_empty());
    assert_eq!(
        binary.request_args.request,
        StartDebuggingRequestKind::Attach
    );
    assert_eq!(
        binary.request_args.configuration,
        obj(vec![("request", s("attach")), ("cwd", JsonValue::Bool(true))])
    );
}

#[test]
fn schema_describes_launch_properties() {
    let schema = FlutterDebugAdapter.dap_schema();
    let properties = schema.get("properties").unwrap();
    let names = [
        ("request", "string"),
        ("program", "string"),
        ("cwd", "string"),
        ("deviceId", "string"),
        ("toolArgs", "array"),
        ("args", "array"),
        ("env", "object"),
        ("noDebug", "boolean"),
    ];
    for (name, ty) in names {
        let property = properties.get(name).unwrap();
        assert_eq!(property.get("type"), Some(&s(ty)));
    }
    assert_eq!(
        properties.get("request").unwrap().get("enum"),
        Some(&arr(vec![s("launch"), s("attach")]))
    );
    assert_eq!(
        properties.get("program").unwrap().get("default"),
        Some(&s("lib/main.dart"))
    );
    assert_eq!(
        properties.get("noDebug").unwrap().get("default"),
        Some(&JsonValue::Bool(false))
    );
    assert_eq!(
        properties.get("toolArgs").unwrap().get("items"),
        Some(&obj(vec![("type", s("string"))]))
    );
    match properties {
        JsonValue::Object(fields) => assert_eq!(fields.len(), 8),
        _ => panic!("properties is not an object"),
    }
}

#[test]
fn scenario_config_names_no_device() {
    let scenario = FlutterDebugAdapter.config_from_zed_format(ZedDebugConfig {
        label: "Run".to_string(),
        adapter: "Flutter".to_string(),
        request: DebugRequest::Launch(LaunchRequest {
            program: "lib/main.dart".to_string(),
            cwd: None,
            args: vec!["-d".to_string()],
            env: vec![],
        }),
        stop_on_entry: Some(true),
    });
    let mut config = scenario.config;
    let expected = obj(vec![
        ("request", s("launch")),
        ("env", obj(vec![])),
        ("program", s("lib/main.dart")),
        ("args", arr(vec![s("-d")])),
        ("stopOnEntry", JsonValue::Bool(true)),
    ]);
    assert_eq!(config.get("deviceId"), None);
    flutter_support::device_args::apply_device_id(&mut config);
    assert_eq!(config, expected);
}

#[test]
fn flutter_command_prefers_user_path() {
    let user = Some("/custom/flutter".to_string());
    assert!(!needs_flutter_lookup(&user));
    assert_eq!(
        flutter_command(user, Some("/usr/bin/flutter".to_string())),
        Ok("/custom/flutter".to_string())
    );
}

#[test]
fn flutter_command_uses_path_lookup() {
    assert!(needs_flutter_lookup(&None));
    assert_eq!(
        flutter_command(None, Some("/usr/bin/flutter".to_string())),
        Ok("/usr/bin/flutter".to_string())
    );
}

#[test]
fn flutter_command_missing_gives_install_hint() {
    assert_eq!(
        flutter_command(None, None),
        Err("`flutter` not found on PATH. Install the Flutter SDK first.".to_string())
    );
}

#[test]
fn get_binary_fails_on_first_failed_step() {
    let config = || obj(vec![("request", s("launch"))]);
    let missing = FlutterDebugAdapter.get_binary(
        Err("no flutter".to_string()),
        config(),
        "/work".to_string(),
        None,
        None,
        Err("bad request".to_string()),
    );
    assert_eq!(missing.err(), Some("no flutter".to_string()));
    let bad_request = FlutterDebugAdapter.get_binary(
        Ok("flutter".to_string()),
        config(),
        "/work".to_string(),
        None,
        None,
        Err("missing or invalid request".to_string()),
    );
    assert_eq!(bad_request.err(), Some("missing or invalid request".to_string()));
    let binary = FlutterDebugAdapter
        .get_binary(
            Ok("flutter".to_string()),
            config(),
            "/work".to_string(),
            None,
            None,
            Ok(StartDebuggingRequestKind::Launch),
        )
        .ok()
        .unwrap();
    assert_eq!(binary.command, Some("flutter".to_string()));
    assert_eq!(binary.cwd, Some("/work".to_string()));
    assert_eq!(binary.request_args.request, StartDebuggingRequestKind::Launch);
}

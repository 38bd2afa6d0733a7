use flutter_support::dart::{server_binary_arguments, DartLspAdapter};

#[test]
fn dart_server_arguments_select_lsp_mode() {
    assert_eq!(
        server_binary_arguments(),
        vec!["language-server".to_string(), "--protocol=lsp".to_string()]
    );
}

#[test]
fn dart_prefers_dart_on_path() {
    let binary = DartLspAdapter
        .check_if_user_installed(
            Some("/usr/local/bin/dart".to_string()),
            Some("/opt/flutter/bin/flutter".to_string()),
        )
        .unwrap();
    assert_eq!(binary.path, "/usr/local/bin/dart");
    assert_eq!(binary.arguments, server_binary_arguments());
    assert!(binary.env.is_none());
}

#[test]
fn dart_falls_back_to_flutter_sdk() {
    let binary = DartLspAdapter
        .check_if_user_installed(None, Some("/opt/flutter/bin/flutter".to_string()))
        .unwrap();
    assert_eq!(binary.path, "/opt/flutter/bin/cache/dart-sdk/bin/dart");
}

#[test]
fn dart_relative_flutter_gives_relative_dart() {
    let binary = DartLspAdapter
        .check_if_user_installed(None, Some("flutter".to_string()))
        .unwrap();
    assert_eq!(binary.path, "cache/dart-sdk/bin/dart");
}

#[test]
fn dart_missing_everywhere() {
    assert!(DartLspAdapter.check_if_user_installed(None, None).is_none());
    assert!(DartLspAdapter
        .check_if_user_installed(None, Some(String::new()))
        .is_none());
}

#[test]
fn dart_server_is_never_downloaded() {
    let err = DartLspAdapter.fetch_server_binary().err().unwrap();
    assert_eq!(
        err,
        "Dart language server is provided by the Flutter/Dart SDK. Install Flutter and ensure `dart` (or `flutter`) is on your PATH."
    );
    assert!(DartLspAdapter.cached_server_binary().is_none());
    assert_eq!(DartLspAdapter.name(), "dart");
}

#[test]
fn dart_server_binary_runs_lsp_mode() {
    let binary = flutter_support::dart::dart_server_binary("/bin/dart".to_string());
    assert_eq!(binary.path, "/bin/dart");
    assert_eq!(binary.arguments, server_binary_arguments());
    assert!(binary.env.is_none());
}

#[test]
fn dart_flutter_looked_up_only_without_dart() {
    assert!(!DartLspAdapter.needs_flutter_lookup(&Some("/usr/bin/dart".to_string())));
    assert!(DartLspAdapter.needs_flutter_lookup(&None));
    assert_eq!(DartLspAdapter.fetch_latest_server_version(), Ok(()));
}

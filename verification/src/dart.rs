use vstd::prelude::*;

verus! {

/// What `std::path::Path::parent` returns for a path: the path without its
/// final component.
pub uninterp spec fn path_parent(path: Seq<char>) -> Option<Seq<char>>;

/// What `std::path::Path::join` returns: `tail` adjoined to `base`.
pub uninterp spec fn path_join(base: Seq<char>, tail: Seq<char>) -> Seq<char>;

/// Calls `std::path::Path::parent` on `path`. The contract claims that the
/// result is `path_parent` of the path, and, as the documentation says, that the
/// empty path has no parent.
#[verifier::external_body]
fn parent_dir(path: &str) -> (r: Option<String>)
    ensures
        r is Some <==> path_parent(path@) is Some,
        r matches Some(parent) ==> path_parent(path@) == Some(parent@),
        path@.len() == 0 ==> r is None,
{
    std::path::Path::new(path).parent().map(|parent| parent.to_string_lossy().into_owned())
}

/// Calls `std::path::Path::join` on `base` and `tail`. The contract claims that
/// the result is `path_join` of the two.
#[verifier::external_body]
fn join_path(base: &str, tail: &str) -> (r: String)
    ensures
        r@ == path_join(base@, tail@),
{
    std::path::Path::new(base).join(tail).to_string_lossy().into_owned()
}

/// How to start a language server: the executable, its arguments, and the
/// environment to set (none meaning the editor's own).
pub struct LanguageServerBinary {
    pub path: String,
    pub arguments: Vec<String>,
    pub env: Option<Vec<(String, String)>>,
}

/// The arguments that start the Dart analysis server in LSP mode.
pub open spec fn spec_server_binary_arguments() -> Seq<Seq<char>> {
    seq!["language-server"@, "--protocol=lsp"@]
}

/// Where a Flutter SDK keeps its Dart executable, relative to the directory of
/// the `flutter` executable.
pub open spec fn bundled_dart() -> Seq<char> {
    "cache/dart-sdk/bin/dart"@
}

/// The Dart executable to use: `dart` found on the `PATH`, else the one bundled
/// with the Flutter SDK whose `flutter` was found there.
pub open spec fn dart_executable(dart: Option<Seq<char>>, flutter: Option<Seq<char>>) -> Option<
    Seq<char>,
> {
    match dart {
        Some(path) => Some(path),
        None => match flutter {
            Some(flutter) => match path_parent(flutter) {
                Some(bin_dir) => Some(path_join(bin_dir, bundled_dart())),
                None => None,
            },
            None => None,
        },
    }
}

/// `dart language-server --protocol=lsp` launches the analysis server in LSP
/// mode. The same server handles Flutter projects (detected via pubspec.yaml).
pub fn server_binary_arguments() -> (r: Vec<String>)
    ensures
        r@.len() == 2,
        r@[0]@ == spec_server_binary_arguments()[0],
        r@[1]@ == spec_server_binary_arguments()[1],
{
    let mut args: Vec<String> = Vec::new();
    args.push(String::from_str("language-server"));
    args.push(String::from_str("--protocol=lsp"));
    args
}

/// The analysis server started from the Dart executable at `path`, in LSP mode,
/// with the editor's own environment.
pub fn dart_server_binary(path: String) -> (r: LanguageServerBinary)
    ensures
        r.path@ == path@,
        r.arguments@.len() == 2,
        r.arguments@[0]@ == spec_server_binary_arguments()[0],
        r.arguments@[1]@ == spec_server_binary_arguments()[1],
        r.env is None,
{
    LanguageServerBinary { path, arguments: server_binary_arguments(), env: None }
}

/// The language server adapter for Dart, backed by the analysis server of the
/// Dart or Flutter SDK the user installed.
#[derive(Debug, Clone, Copy)]
pub struct DartLspAdapter;

impl DartLspAdapter {
    /// The language server's name.
    pub fn name(&self) -> (r: String)
        ensures
            r@ == "dart"@,
    {
        String::from_str("dart")
    }

    /// The SDK provides the server, so there is no remote version to fetch.
    pub fn fetch_latest_server_version(&self) -> (r: Result<(), String>)
        ensures
            r is Ok,
    {
        Ok(())
    }

    /// Whether `flutter` has to be looked up on the `PATH`: only where `dart` was
    /// not found there.
    pub fn needs_flutter_lookup(&self, dart_on_path: &Option<String>) -> (r: bool)
        ensures
            r == (dart_on_path is None),
    {
        dart_on_path.is_none()
    }

    /// The analysis server to run, given where `dart` and `flutter` were found on
    /// the `PATH`: `dart` itself if it was found, else the Dart bundled inside the
    /// Flutter SDK (`<sdk>/bin/flutter` gives `<sdk>/bin/cache/dart-sdk/bin/dart`),
    /// and no server where neither was found.
    pub fn check_if_user_installed(
        &self,
        dart_on_path: Option<String>,
        flutter_on_path: Option<String>,
    ) -> (r: Option<LanguageServerBinary>)
        ensures
            r is Some <==> dart_executable(
                match dart_on_path {
                    Some(p) => Some(p@),
                    None => None,
                },
                match flutter_on_path {
                    Some(p) => Some(p@),
                    None => None,
                },
            ) is Some,
            r matches Some(binary) ==> {
                &&& Some(binary.path@) == dart_executable(
                    match dart_on_path {
                        Some(p) => Some(p@),
                        None => None,
                    },
                    match flutter_on_path {
                        Some(p) => Some(p@),
                        None => None,
                    },
                )
                &&& binary.arguments@.len() == 2
                &&& binary.arguments@[0]@ == spec_server_binary_arguments()[0]
                &&& binary.arguments@[1]@ == spec_server_binary_arguments()[1]
                &&& binary.env is None
            },
    {
        let path = match dart_on_path {
            Some(path) => path,
            None => {
                let flutter = match flutter_on_path {
                    Some(flutter) => flutter,
                    None => return None,
                };
                let bin_dir = match parent_dir(flutter.as_str()) {
                    Some(bin_dir) => bin_dir,
                    None => return None,
                };
                join_path(bin_dir.as_str(), "cache/dart-sdk/bin/dart")
            },
        };
        Some(dart_server_binary(path))
    }

    /// The server is never downloaded: fetching it always fails, telling the user
    /// to install the SDK.
    pub fn fetch_server_binary(&self) -> (r: Result<LanguageServerBinary, String>)
        ensures
            r matches Err(message) && message@ == (
            "Dart language server is provided by the Flutter/Dart SDK. Install Flutter and ensure `dart` (or `flutter`) is on your PATH."@),
    {
        Err(
            String::from_str(
                "Dart language server is provided by the Flutter/Dart SDK. Install Flutter and ensure `dart` (or `flutter`) is on your PATH.",
            ),
        )
    }

    /// There is no downloaded copy of the server to fall back on.
    pub fn cached_server_binary(&self) -> (r: Option<LanguageServerBinary>)
        ensures
            r is None,
    {
        None
    }
}

/// Where `dart` was found on the `PATH`, the server runs it, whatever was found
/// of `flutter`.
pub proof fn lemma_dart_on_path_wins(dart: Seq<char>, flutter: Option<Seq<char>>)
    ensures
        dart_executable(Some(dart), flutter) == Some(dart),
        dart_executable(Some(dart), flutter) == dart_executable(Some(dart), None),
{
}

/// The analysis server runs `dart` from the `PATH` where it was found; otherwise
/// the `cache/dart-sdk/bin/dart` next to the `flutter` found on the `PATH`, where
/// that `flutter` has a parent directory; otherwise there is none. It always runs
/// in LSP mode: `language-server --protocol=lsp`.
pub proof fn lemma_dart_executable_choice(dart: Option<Seq<char>>, flutter: Option<Seq<char>>)
    ensures
        dart matches Some(path) ==> dart_executable(dart, flutter) == Some(path),
        dart is None ==> (flutter matches Some(f) ==> (path_parent(f) matches Some(bin_dir)
            ==> dart_executable(dart, flutter) == Some(
            path_join(bin_dir, "cache/dart-sdk/bin/dart"@),
        ))),
        dart is None ==> (flutter matches Some(f) ==> (path_parent(f) is None ==> dart_executable(
            dart,
            flutter,
        ) is None)),
        (dart is None && flutter is None) ==> dart_executable(dart, flutter) is None,
        spec_server_binary_arguments() == seq!["language-server"@, "--protocol=lsp"@],
{
}

} // verus!

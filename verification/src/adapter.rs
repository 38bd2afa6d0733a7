use vstd::prelude::*;

use crate::device_args::{apply_device_id, with_device_id};
use crate::json::{lemma_get_reads_first_occurrence, keys_view, values_view, Json, JsonValue};

verus! {

/// The views of a sequence of strings.
pub open spec fn strings_view(v: Seq<String>) -> Seq<Seq<char>> {
    Seq::new(v.len(), |i: int| v[i]@)
}

/// The views of the names of a list of name/value pairs.
pub open spec fn pair_names(v: Seq<(String, String)>) -> Seq<Seq<char>> {
    Seq::new(v.len(), |i: int| v[i].0@)
}

/// The views of the values of a list of name/value pairs.
pub open spec fn pair_values(v: Seq<(String, String)>) -> Seq<Seq<char>> {
    Seq::new(v.len(), |i: int| v[i].1@)
}

/// JSON strings, one per string.
pub open spec fn json_strs(v: Seq<Seq<char>>) -> Seq<Json> {
    Seq::new(v.len(), |i: int| Json::Str(v[i]))
}

/// The JSON object that maps each environment variable to its value.
pub open spec fn env_object(env: Seq<(String, String)>) -> Json {
    Json::Object { keys: pair_names(env), values: json_strs(pair_values(env)) }
}

/// A launch request: run `program` with `args`, in `cwd`, with `env` set.
pub struct LaunchRequest {
    pub program: String,
    pub cwd: Option<String>,
    pub args: Vec<String>,
    pub env: Vec<(String, String)>,
}

/// An attach request: connect to a running process.
pub struct AttachRequest {
    pub process_id: Option<u32>,
}

/// What a debug scenario asks the adapter to do.
pub enum DebugRequest {
    Launch(LaunchRequest),
    Attach(AttachRequest),
}

/// A debug scenario in the editor's own format.
pub struct ZedDebugConfig {
    pub label: String,
    pub adapter: String,
    pub request: DebugRequest,
    pub stop_on_entry: Option<bool>,
}

/// A debug scenario in the adapter's format: its configuration is what the
/// adapter's launch or attach request carries.
pub struct DebugScenario {
    pub adapter: String,
    pub label: String,
    pub config: JsonValue,
}

/// Whether the debug session launches a program or attaches to one.
#[derive(Debug, Clone, Copy, PartialEq, Eq)]
pub enum StartDebuggingRequestKind {
    Launch,
    Attach,
}

/// The request that starts a debug session and the configuration it carries.
pub struct StartDebuggingRequestArguments {
    pub request: StartDebuggingRequestKind,
    pub configuration: JsonValue,
}

/// How to start the debug adapter process, and the request to send it.
pub struct DebugAdapterBinary {
    pub command: Option<String>,
    pub arguments: Vec<String>,
    pub cwd: Option<String>,
    pub envs: Vec<(String, String)>,
    pub request_args: StartDebuggingRequestArguments,
}

/// The keys of the configuration made from a debug request.
pub open spec fn request_keys(request: DebugRequest) -> Seq<Seq<char>> {
    match request {
        DebugRequest::Launch(launch) => {
            let keys = seq!["request"@, "env"@, "program"@, "args"@];
            if launch.cwd is Some {
                keys.push("cwd"@)
            } else {
                keys
            }
        },
        DebugRequest::Attach(_) => seq!["request"@],
    }
}

/// The values of the configuration made from a debug request.
pub open spec fn request_values(request: DebugRequest) -> Seq<Json> {
    match request {
        DebugRequest::Launch(launch) => {
            let values = seq![
                Json::Str("launch"@),
                env_object(launch.env@),
                Json::Str(launch.program@),
                Json::Array(json_strs(strings_view(launch.args@))),
            ];
            match launch.cwd {
                Some(cwd) => values.push(Json::Str(cwd@)),
                None => values,
            }
        },
        DebugRequest::Attach(_) => seq![Json::Str("attach"@)],
    }
}

/// The adapter configuration made from a debug request and its stop-on-entry
/// choice: `request`, then for a launch `env`, `program`, `args` and `cwd` where
/// given, then `stopOnEntry` where given.
pub open spec fn scenario_config(request: DebugRequest, stop_on_entry: Option<bool>) -> Json {
    match stop_on_entry {
        Some(stop) => Json::Object {
            keys: request_keys(request).push("stopOnEntry"@),
            values: request_values(request).push(Json::Bool(stop)),
        },
        None => Json::Object { keys: request_keys(request), values: request_values(request) },
    }
}

/// The working directory of a debug session: the configuration's `cwd` where it
/// is a string, the worktree root otherwise.
pub open spec fn session_cwd(config: Json, worktree_root: Seq<char>) -> Seq<char> {
    match config.get("cwd"@) {
        Some(Json::Str(cwd)) => cwd,
        _ => worktree_root,
    }
}

/// The arguments of the adapter process: `debug_adapter`, then the user's.
pub open spec fn adapter_arguments(user_args: Option<Seq<String>>) -> Seq<Seq<char>> {
    match user_args {
        Some(extra) => seq!["debug_adapter"@] + strings_view(extra),
        None => seq!["debug_adapter"@],
    }
}

/// `binary` starts `flutter debug_adapter`: it runs `flutter` with
/// `debug_adapter` and the user's arguments, in the session's working directory,
/// with the user's environment, and sends `request` with the configuration's
/// device id merged into its `toolArgs`.
pub open spec fn describes_adapter_binary(
    binary: DebugAdapterBinary,
    flutter: Seq<char>,
    config: Json,
    worktree_root: Seq<char>,
    user_args: Option<Seq<String>>,
    user_env: Option<Seq<(String, String)>>,
    request: StartDebuggingRequestKind,
) -> bool {
    &&& binary.command matches Some(command) && command@ == flutter
    &&& strings_view(binary.arguments@) == adapter_arguments(user_args)
    &&& binary.cwd matches Some(cwd) && cwd@ == session_cwd(config, worktree_root)
    &&& binary.envs@ == (match user_env {
        Some(env) => env,
        None => Seq::empty(),
    })
    &&& binary.request_args.request == request
    &&& binary.request_args.configuration@ == with_device_id(config)
}

/// The JSON array of a list of strings.
fn json_string_array(strings: &Vec<String>) -> (r: Vec<JsonValue>)
    ensures
        crate::json::items_view(r@) == json_strs(strings_view(strings@)),
{
    let mut items: Vec<JsonValue> = Vec::new();
    let mut i: usize = 0;
    while i < strings.len()
        invariant
            i <= strings@.len(),
            items@.len() == i,
            forall|j: int| 0 <= j < i ==> (#[trigger] items@[j])@ == Json::Str(strings@[j]@),
        decreases strings@.len() - i,
    {
        items.push(JsonValue::String(strings[i].clone()));
        i += 1;
    }
    assert(crate::json::items_view(items@) =~= json_strs(strings_view(strings@)));
    items
}

/// The JSON object of a list of environment variables.
fn env_json(env: &Vec<(String, String)>) -> (r: JsonValue)
    ensures
        r@ == env_object(env@),
{
    let mut fields: Vec<(String, JsonValue)> = Vec::new();
    let mut i: usize = 0;
    while i < env.len()
        invariant
            i <= env@.len(),
            fields@.len() == i,
            forall|j: int|
                0 <= j < i ==> (#[trigger] fields@[j]).0@ == env@[j].0@ && fields@[j].1@
                    == Json::Str(env@[j].1@),
        decreases env@.len() - i,
    {
        fields.push((env[i].0.clone(), JsonValue::String(env[i].1.clone())));
        i += 1;
    }
    proof {
        JsonValue::lemma_object_view(fields);
        assert(keys_view(fields@) =~= pair_names(env@));
        assert(values_view(fields@) =~= json_strs(pair_values(env@)));
    }
    JsonValue::Object(fields)
}

/// The names of the launch properties that the adapter's schema describes.
pub open spec fn schema_property_names() -> Seq<Seq<char>> {
    seq![
        "request"@,
        "program"@,
        "cwd"@,
        "deviceId"@,
        "toolArgs"@,
        "args"@,
        "env"@,
        "noDebug"@,
    ]
}

/// A schema property of the given type, with a description and, where given, a
/// default value.
pub open spec fn spec_schema_property(
    ty: Seq<char>,
    description: Seq<char>,
    default: Option<Json>,
) -> Json {
    match default {
        Some(default) => Json::Object {
            keys: seq!["type"@, "description"@, "default"@],
            values: seq![Json::Str(ty), Json::Str(description), default],
        },
        None => Json::Object {
            keys: seq!["type"@, "description"@],
            values: seq![Json::Str(ty), Json::Str(description)],
        },
    }
}

/// A schema property that is an array of strings, empty by default.
pub open spec fn spec_string_array_property(description: Seq<char>) -> Json {
    Json::Object {
        keys: seq!["type"@, "items"@, "description"@, "default"@],
        values: seq![
            Json::Str("array"@),
            Json::Object { keys: seq!["type"@], values: seq![Json::Str("string"@)] },
            Json::Str(description),
            Json::Array(Seq::empty()),
        ],
    }
}

/// The schema of the adapter's launch configuration.
pub open spec fn flutter_dap_schema() -> Json {
    Json::Object {
        keys: seq!["properties"@],
        values: seq![
            Json::Object {
                keys: schema_property_names(),
                values: seq![
                    Json::Object {
                        keys: seq!["type"@, "enum"@],
                        values: seq![
                            Json::Str("string"@),
                            Json::Array(seq![Json::Str("launch"@), Json::Str("attach"@)]),
                        ],
                    },
                    spec_schema_property(
                        "string"@,
                        "Dart entrypoint, e.g. lib/main.dart"@,
                        Some(Json::Str("lib/main.dart"@)),
                    ),
                    spec_schema_property(
                        "string"@,
                        "Workspace relative or absolute path to the Flutter project root."@,
                        Some(Json::Str("${ZED_WORKTREE_ROOT}"@)),
                    ),
                    spec_schema_property(
                        "string"@,
                        "Flutter device id to run on, e.g. macos, chrome, emulator-5554."@,
                        None,
                    ),
                    spec_string_array_property(
                        "Extra arguments forwarded to `flutter debug_adapter`."@,
                    ),
                    spec_string_array_property("Extra arguments forwarded to the running app."@),
                    Json::Object {
                        keys: seq!["type"@, "additionalProperties"@, "description"@],
                        values: seq![
                            Json::Str("object"@),
                            Json::Object { keys: seq!["type"@], values: seq![Json::Str("string"@)] },
                            Json::Str("Environment variables to set when launching the app."@),
                        ],
                    },
                    spec_schema_property(
                        "boolean"@,
                        "Run without attaching a debugger."@,
                        Some(Json::Bool(false)),
                    ),
                ],
            },
        ],
    }
}

/// A JSON string.
fn json_str(s: &str) -> (r: JsonValue)
    ensures
        r@ == Json::Str(s@),
{
    JsonValue::String(String::from_str(s))
}

/// An object field.
fn json_field(key: &str, value: JsonValue) -> (r: (String, JsonValue))
    ensures
        r.0@ == key@,
        r.1 == value,
{
    (String::from_str(key), value)
}

/// The object `{ "type": ty }`.
fn type_object(ty: &str) -> (r: JsonValue)
    ensures
        r@ == (Json::Object { keys: seq!["type"@], values: seq![Json::Str(ty@)] }),
{
    let mut fields: Vec<(String, JsonValue)> = Vec::new();
    fields.push(json_field("type", json_str(ty)));
    proof {
        JsonValue::lemma_object_view(fields);
        assert(keys_view(fields@) =~= seq!["type"@]);
        assert(values_view(fields@) =~= seq![Json::Str(ty@)]);
    }
    JsonValue::Object(fields)
}

/// A schema property: its type, a description and, where given, a default.
fn schema_property(ty: &str, description: &str, default: Option<JsonValue>) -> (r: JsonValue)
    ensures
        r@ == spec_schema_property(
            ty@,
            description@,
            match default {
                Some(d) => Some(d@),
                None => None,
            },
        ),
{
    let ghost default_view = match &default {
        Some(d) => Some(d@),
        None => None,
    };
    let mut fields: Vec<(String, JsonValue)> = Vec::new();
    fields.push(json_field("type", json_str(ty)));
    fields.push(json_field("description", json_str(description)));
    if let Some(default) = default {
        fields.push(json_field("default", default));
    }
    proof {
        JsonValue::lemma_object_view(fields);
        let expected = spec_schema_property(ty@, description@, default_view);
        assert(keys_view(fields@) =~= expected->keys);
        assert(values_view(fields@) =~= expected->values);
    }
    JsonValue::Object(fields)
}

/// An array property whose items are strings.
fn string_array_property(description: &str) -> (r: JsonValue)
    ensures
        r@ == spec_string_array_property(description@),
{
    let mut fields: Vec<(String, JsonValue)> = Vec::new();
    fields.push(json_field("type", json_str("array")));
    fields.push(json_field("items", type_object("string")));
    fields.push(json_field("description", json_str(description)));
    let empty: Vec<JsonValue> = Vec::new();
    proof {
        JsonValue::lemma_array_view(empty);
        assert(crate::json::items_view(empty@) =~= Seq::empty());
    }
    fields.push(json_field("default", JsonValue::Array(empty)));
    proof {
        JsonValue::lemma_object_view(fields);
        let expected = spec_string_array_property(description@);
        assert(keys_view(fields@) =~= expected->keys);
        assert(values_view(fields@) =~= expected->values);
    }
    JsonValue::Object(fields)
}

/// The message given where no `flutter` executable is named or found.
pub open spec fn flutter_not_found_message() -> Seq<char> {
    "`flutter` not found on PATH. Install the Flutter SDK first."@
}

/// Whether `flutter` has to be looked up on the `PATH`: only where the user named
/// no executable.
pub fn needs_flutter_lookup(user_installed_path: &Option<String>) -> (r: bool)
    ensures
        r == (user_installed_path is None),
{
    user_installed_path.is_none()
}

/// The Flutter executable to run: the one the user named, else the one found on
/// the `PATH`, else an error with an install hint.
pub fn flutter_command(user_installed_path: Option<String>, on_path: Option<String>) -> (r: Result<
    String,
    String,
>)
    ensures
        user_installed_path matches Some(path) ==> r matches Ok(command) && command@ == path@,
        user_installed_path is None ==> (on_path matches Some(path) ==> r matches Ok(command)
            && command@ == path@),
        (user_installed_path is None && on_path is None) ==> (r matches Err(message) && message@
            == flutter_not_found_message()),
{
    match user_installed_path {
        Some(path) => Ok(path),
        None => match on_path {
            Some(path) => Ok(path),
            None => Err(
                String::from_str("`flutter` not found on PATH. Install the Flutter SDK first."),
            ),
        },
    }
}

/// The debug adapter that drives Flutter apps through `flutter debug_adapter`.
pub struct FlutterDebugAdapter;

impl FlutterDebugAdapter {
    /// The adapter's name.
    pub fn name(&self) -> (r: String)
        ensures
            r@ == "Flutter"@,
    {
        String::from_str("Flutter")
    }

    /// The language whose programs the adapter debugs.
    pub fn adapter_language_name(&self) -> (r: Option<String>)
        ensures
            r matches Some(name) && name@ == "Dart"@,
    {
        Some(String::from_str("Dart"))
    }

    /// The JSON schema of the adapter's launch configuration.
    pub fn dap_schema(&self) -> (r: JsonValue)
        ensures
            r@ == flutter_dap_schema(),
    {
        let mut request_enum: Vec<JsonValue> = Vec::new();
        request_enum.push(json_str("launch"));
        request_enum.push(json_str("attach"));
        proof {
            JsonValue::lemma_array_view(request_enum);
            assert(crate::json::items_view(request_enum@) =~= seq![
                Json::Str("launch"@),
                Json::Str("attach"@),
            ]);
        }
        let mut request: Vec<(String, JsonValue)> = Vec::new();
        request.push(json_field("type", json_str("string")));
        request.push(json_field("enum", JsonValue::Array(request_enum)));
        proof {
            JsonValue::lemma_object_view(request);
            let expected = flutter_dap_schema()->values[0]->values[0];
            assert(keys_view(request@) =~= expected->keys);
            assert(values_view(request@) =~= expected->values);
        }
        let mut env: Vec<(String, JsonValue)> = Vec::new();
        env.push(json_field("type", json_str("object")));
        env.push(json_field("additionalProperties", type_object("string")));
        env.push(
            json_field(
                "description",
                json_str("Environment variables to set when launching the app."),
            ),
        );
        proof {
            JsonValue::lemma_object_view(env);
            let expected = flutter_dap_schema()->values[0]->values[6];
            assert(keys_view(env@) =~= expected->keys);
            assert(values_view(env@) =~= expected->values);
        }
        let mut properties: Vec<(String, JsonValue)> = Vec::new();
        properties.push(json_field("request", JsonValue::Object(request)));
        properties.push(
            json_field(
                "program",
                schema_property(
                    "string",
                    "Dart entrypoint, e.g. lib/main.dart",
                    Some(json_str("lib/main.dart")),
                ),
            ),
        );
        properties.push(
            json_field(
                "cwd",
                schema_property(
                    "string",
                    "Workspace relative or absolute path to the Flutter project root.",
                    Some(json_str("${ZED_WORKTREE_ROOT}")),
                ),
            ),
        );
        properties.push(
            json_field(
                "deviceId",
                schema_property(
                    "string",
                    "Flutter device id to run on, e.g. macos, chrome, emulator-5554.",
                    None,
                ),
            ),
        );
        properties.push(
            json_field(
                "toolArgs",
                string_array_property("Extra arguments forwarded to `flutter debug_adapter`."),
            ),
        );
        properties.push(
            json_field("args", string_array_property("Extra arguments forwarded to the running app.")),
        );
        properties.push(json_field("env", JsonValue::Object(env)));
        properties.push(
            json_field(
                "noDebug",
                schema_property(
                    "boolean",
                    "Run without attaching a debugger.",
                    Some(JsonValue::Bool(false)),
                ),
            ),
        );
        proof {
            JsonValue::lemma_object_view(properties);
            let expected = flutter_dap_schema()->values[0];
            assert(keys_view(properties@) =~= expected->keys);
            assert(values_view(properties@) =~= expected->values);
        }
        let mut schema: Vec<(String, JsonValue)> = Vec::new();
        schema.push(json_field("properties", JsonValue::Object(properties)));
        proof {
            JsonValue::lemma_object_view(schema);
            assert(keys_view(schema@) =~= flutter_dap_schema()->keys);
            assert(values_view(schema@) =~= flutter_dap_schema()->values);
        }
        JsonValue::Object(schema)
    }

    /// Turns a debug scenario in the editor's format into one in the adapter's.
    pub fn config_from_zed_format(&self, zed_scenario: ZedDebugConfig) -> (r: DebugScenario)
        ensures
            r.adapter@ == zed_scenario.adapter@,
            r.label@ == zed_scenario.label@,
            r.config@ == scenario_config(zed_scenario.request, zed_scenario.stop_on_entry),
    {
        let ZedDebugConfig { label, adapter, request, stop_on_entry } = zed_scenario;
        let ghost spec_request = request;
        let mut fields: Vec<(String, JsonValue)> = Vec::new();
        match request {
            DebugRequest::Launch(launch) => {
                let LaunchRequest { program, cwd, args, env } = launch;
                fields.push(
                    (String::from_str("request"), JsonValue::String(String::from_str("launch"))),
                );
                fields.push((String::from_str("env"), env_json(&env)));
                fields.push((String::from_str("program"), JsonValue::String(program)));
                let items = json_string_array(&args);
                proof {
                    JsonValue::lemma_array_view(items);
                }
                fields.push((String::from_str("args"), JsonValue::Array(items)));
                if let Some(cwd) = cwd {
                    fields.push((String::from_str("cwd"), JsonValue::String(cwd)));
                }
            },
            DebugRequest::Attach(_) => {
                fields.push(
                    (String::from_str("request"), JsonValue::String(String::from_str("attach"))),
                );
            },
        }
        proof {
            assert(keys_view(fields@) =~= request_keys(spec_request));
            assert(values_view(fields@) =~= request_values(spec_request));
        }
        if let Some(stop) = stop_on_entry {
            fields.push((String::from_str("stopOnEntry"), JsonValue::Bool(stop)));
        }
        proof {
            JsonValue::lemma_object_view(fields);
            assert(keys_view(fields@) =~= scenario_config(spec_request, stop_on_entry)->keys);
            assert(values_view(fields@) =~= scenario_config(spec_request, stop_on_entry)->values);
        }
        DebugScenario { adapter, label, config: JsonValue::Object(fields) }
    }

    /// How to start `flutter debug_adapter` for a debug task.
    ///
    /// `flutter` is the Flutter executable, `config` the task's configuration,
    /// `worktree_root` the directory used where the configuration names no `cwd`,
    /// and `request` whether the configuration launches or attaches.
    pub fn debug_adapter_binary(
        &self,
        flutter: String,
        config: JsonValue,
        worktree_root: String,
        user_args: Option<Vec<String>>,
        user_env: Option<Vec<(String, String)>>,
        request: StartDebuggingRequestKind,
    ) -> (r: DebugAdapterBinary)
        ensures
            describes_adapter_binary(
                r,
                flutter@,
                config@,
                worktree_root@,
                match user_args {
                    Some(a) => Some(a@),
                    None => None,
                },
                match user_env {
                    Some(env) => Some(env@),
                    None => None,
                },
                request,
            ),
    {
        let cwd_key = String::from_str("cwd");
        let cwd = match config.get_str(&cwd_key) {
            Some(cwd) => cwd,
            None => worktree_root,
        };
        let mut configuration = config;
        apply_device_id(&mut configuration);
        let mut arguments: Vec<String> = Vec::new();
        arguments.push(String::from_str("debug_adapter"));
        if let Some(extra) = user_args {
            let mut extra = extra;
            arguments.append(&mut extra);
        }
        proof {
            assert(strings_view(arguments@) =~= adapter_arguments(
                match user_args {
                    Some(a) => Some(a@),
                    None => None,
                },
            ));
        }
        let envs = match user_env {
            Some(env) => env,
            None => Vec::new(),
        };
        DebugAdapterBinary {
            command: Some(flutter),
            arguments,
            cwd: Some(cwd),
            envs,
            request_args: StartDebuggingRequestArguments { request, configuration },
        }
    }

    /// How to start `flutter debug_adapter`, given the outcome of choosing the
    /// Flutter executable and of telling whether the configuration launches or
    /// attaches: the first of the two that failed fails the whole start with its
    /// error; where both succeeded, the binary is that of `debug_adapter_binary`.
    pub fn get_binary(
        &self,
        flutter: Result<String, String>,
        config: JsonValue,
        worktree_root: String,
        user_args: Option<Vec<String>>,
        user_env: Option<Vec<(String, String)>>,
        request: Result<StartDebuggingRequestKind, String>,
    ) -> (r: Result<DebugAdapterBinary, String>)
        ensures
            flutter matches Err(e) ==> (r matches Err(e2) && e2 == e),
            (flutter is Ok && request is Err) ==> (r matches Err(e2) && e2 == request->Err_0),
            (flutter is Ok && request is Ok) ==> (r matches Ok(binary) && describes_adapter_binary(
                binary,
                flutter->Ok_0@,
                config@,
                worktree_root@,
                match user_args {
                    Some(a) => Some(a@),
                    None => None,
                },
                match user_env {
                    Some(env) => Some(env@),
                    None => None,
                },
                request->Ok_0,
            )),
    {
        let flutter = match flutter {
            Ok(flutter) => flutter,
            Err(e) => return Err(e),
        };
        let request = match request {
            Ok(request) => request,
            Err(e) => return Err(e),
        };
        Ok(self.debug_adapter_binary(flutter, config, worktree_root, user_args, user_env, request))
    }

}

/// A scenario built from the editor's format names no device, so merging a
/// device id into its configuration leaves the configuration as it is.
pub proof fn lemma_scenario_config_names_no_device(request: DebugRequest, stop_on_entry: Option<bool>)
    ensures
        scenario_config(request, stop_on_entry).get("deviceId"@) is None,
        with_device_id(scenario_config(request, stop_on_entry)) == scenario_config(
            request,
            stop_on_entry,
        ),
{
    let keys = scenario_config(request, stop_on_entry)->keys;
    reveal_strlit("deviceId");
    reveal_strlit("request");
    reveal_strlit("env");
    reveal_strlit("program");
    reveal_strlit("args");
    reveal_strlit("cwd");
    reveal_strlit("stopOnEntry");
    assert forall|j: int| 0 <= j < keys.len() implies keys[j] != "deviceId"@ by {
        assert(keys[j][0] != "deviceId"@[0]);
    }
    crate::json::lemma_key_index_none(keys, "deviceId"@);
}

/// The configuration made from a launch request holds `request: "launch"`, the
/// program, one `env` field per environment variable in order, the arguments in
/// order, `cwd` exactly where one was given and `stopOnEntry` exactly where that
/// choice was made.
pub proof fn lemma_launch_config_fields(launch: LaunchRequest, stop_on_entry: Option<bool>)
    ensures
        scenario_config(DebugRequest::Launch(launch), stop_on_entry).get("request"@) == Some(
            Json::Str("launch"@),
        ),
        scenario_config(DebugRequest::Launch(launch), stop_on_entry).get("program"@) == Some(
            Json::Str(launch.program@),
        ),
        scenario_config(DebugRequest::Launch(launch), stop_on_entry).get("env"@) matches Some(
            Json::Object { keys, values },
        ) && keys.len() == launch.env@.len() && values.len() == launch.env@.len() && forall|i: int|
            0 <= i < launch.env@.len() ==> #[trigger] keys[i] == launch.env@[i].0@ && values[i]
                == Json::Str(launch.env@[i].1@),
        scenario_config(DebugRequest::Launch(launch), stop_on_entry).get("args"@) matches Some(
            Json::Array(args),
        ) && args.len() == launch.args@.len() && forall|i: int|
            0 <= i < launch.args@.len() ==> #[trigger] args[i] == Json::Str(launch.args@[i]@),
        scenario_config(DebugRequest::Launch(launch), stop_on_entry).get("cwd"@) == (match launch.cwd {
            Some(cwd) => Some(Json::Str(cwd@)),
            None => None,
        }),
        scenario_config(DebugRequest::Launch(launch), stop_on_entry).get("stopOnEntry"@) == (
        match stop_on_entry {
            Some(stop) => Some(Json::Bool(stop)),
            None => None,
        }),
{
    let c = scenario_config(DebugRequest::Launch(launch), stop_on_entry);
    let keys = c->keys;
    let values = c->values;
    reveal_strlit("request");
    reveal_strlit("env");
    reveal_strlit("program");
    reveal_strlit("args");
    reveal_strlit("cwd");
    reveal_strlit("stopOnEntry");
    lemma_get_reads_first_occurrence(keys, values, "request"@);
    lemma_get_reads_first_occurrence(keys, values, "env"@);
    lemma_get_reads_first_occurrence(keys, values, "program"@);
    lemma_get_reads_first_occurrence(keys, values, "args"@);
    lemma_get_reads_first_occurrence(keys, values, "cwd"@);
    lemma_get_reads_first_occurrence(keys, values, "stopOnEntry"@);
    assert(keys[0] == "request"@);
    assert(keys[1] == "env"@);
    assert(keys[2] == "program"@);
    assert(keys[3] == "args"@);
    assert("request"@[0] != "env"@[0] && "request"@[0] != "program"@[0] && "env"@[0] != "program"@[0]);
    assert("args"@[0] != "request"@[0] && "args"@[0] != "env"@[0] && "args"@[0] != "program"@[0]);
    assert(c.get("request"@) == Some(values[0]));
    assert(c.get("env"@) == Some(values[1]));
    assert(c.get("program"@) == Some(values[2]));
    assert(c.get("args"@) == Some(values[3]));
    assert forall|j: int| 0 <= j < keys.len() && keys[j] == "cwd"@ implies j == 4 by {
        assert(keys[j][0] == "cwd"@[0]);
    }
    assert forall|j: int| 0 <= j < keys.len() && keys[j] == "stopOnEntry"@ implies j
        == keys.len() - 1 && stop_on_entry is Some by {
        assert(keys[j][0] == "stopOnEntry"@[0]);
    }
    if launch.cwd is Some {
        assert(keys[4] == "cwd"@);
        assert(c.get("cwd"@) == Some(values[4]));
    }
    if stop_on_entry is Some {
        let last = keys.len() - 1;
        assert(keys[last] == "stopOnEntry"@);
        assert(c.get("stopOnEntry"@) == Some(values[last]));
    }
}

/// The configuration made from an attach request holds `request: "attach"`,
/// `stopOnEntry` exactly where that choice was made, and nothing of a launch.
pub proof fn lemma_attach_config_fields(attach: AttachRequest, stop_on_entry: Option<bool>)
    ensures
        scenario_config(DebugRequest::Attach(attach), stop_on_entry).get("request"@) == Some(
            Json::Str("attach"@),
        ),
        scenario_config(DebugRequest::Attach(attach), stop_on_entry).get("program"@) is None,
        scenario_config(DebugRequest::Attach(attach), stop_on_entry).get("env"@) is None,
        scenario_config(DebugRequest::Attach(attach), stop_on_entry).get("stopOnEntry"@) == (
        match stop_on_entry {
            Some(stop) => Some(Json::Bool(stop)),
            None => None,
        }),
{
    let c = scenario_config(DebugRequest::Attach(attach), stop_on_entry);
    let keys = c->keys;
    let values = c->values;
    reveal_strlit("request");
    reveal_strlit("env");
    reveal_strlit("program");
    reveal_strlit("stopOnEntry");
    lemma_get_reads_first_occurrence(keys, values, "request"@);
    lemma_get_reads_first_occurrence(keys, values, "env"@);
    lemma_get_reads_first_occurrence(keys, values, "program"@);
    lemma_get_reads_first_occurrence(keys, values, "stopOnEntry"@);
    assert(c.get("request"@) == Some(values[0]));
    assert forall|j: int| 0 <= j < keys.len() implies keys[j] != "env"@ && keys[j] != "program"@ by {
        assert(keys[j][0] != "env"@[0] && keys[j][0] != "program"@[0]);
    }
    if stop_on_entry is Some {
        assert("request"@[0] != "stopOnEntry"@[0]);
        assert(c.get("stopOnEntry"@) == Some(values[1]));
    } else {
        assert(keys[0] != "stopOnEntry"@) by {
            assert("request"@[0] != "stopOnEntry"@[0]);
        }
    }
}

/// The adapter process runs the Flutter executable with `debug_adapter` followed
/// by every user argument in order, in the configuration's `cwd` where that is a
/// string and in the worktree root otherwise, with exactly the user's environment,
/// and sends the request kind it was given.
pub proof fn lemma_adapter_binary_parts(
    binary: DebugAdapterBinary,
    flutter: Seq<char>,
    config: Json,
    worktree_root: Seq<char>,
    user_args: Option<Seq<String>>,
    user_env: Option<Seq<(String, String)>>,
    request: StartDebuggingRequestKind,
)
    requires
        describes_adapter_binary(
            binary,
            flutter,
            config,
            worktree_root,
            user_args,
            user_env,
            request,
        ),
    ensures
        binary.command matches Some(command) && command@ == flutter,
        binary.arguments@.len() == 1 + (match user_args {
            Some(extra) => extra.len(),
            None => 0,
        }),
        binary.arguments@[0]@ == "debug_adapter"@,
        user_args matches Some(extra) ==> forall|i: int|
            0 <= i < extra.len() ==> (#[trigger] binary.arguments@[i + 1])@ == extra[i]@,
        config.get("cwd"@) matches Some(Json::Str(cwd)) ==> (binary.cwd matches Some(c) && c@
            == cwd),
        !(config.get("cwd"@) matches Some(Json::Str(_))) ==> (binary.cwd matches Some(c) && c@
            == worktree_root),
        user_env matches Some(env) ==> binary.envs@ == env,
        user_env is None ==> binary.envs@.len() == 0,
        binary.request_args.request == request,
{
    let views = strings_view(binary.arguments@);
    assert(views.len() == binary.arguments@.len());
    assert(binary.arguments@[0]@ == views[0]);
    if let Some(extra) = user_args {
        assert forall|i: int| 0 <= i < extra.len() implies (#[trigger] binary.arguments@[i
            + 1])@ == extra[i]@ by {
            assert(views[i + 1] == binary.arguments@[i + 1]@);
            assert(views[i + 1] == (seq!["debug_adapter"@] + strings_view(extra))[i + 1]);
        }
    }
}

/// The launch schema describes each property with its JSON type, offers `launch`
/// and `attach` as requests, defaults the program to `lib/main.dart`, the working
/// directory to the worktree root, `noDebug` to false and both argument lists to
/// empty arrays of strings.
pub proof fn lemma_schema_describes_properties()
    ensures
        flutter_dap_schema().get("properties"@) matches Some(properties) && {
            &&& properties.get("request"@) matches Some(p) && p.get("type"@) == Some(
                Json::Str("string"@),
            ) && p.get("enum"@) == Some(
                Json::Array(seq![Json::Str("launch"@), Json::Str("attach"@)]),
            )
            &&& properties.get("program"@) matches Some(p) && p.get("type"@) == Some(
                Json::Str("string"@),
            ) && p.get("default"@) == Some(Json::Str("lib/main.dart"@))
            &&& properties.get("cwd"@) matches Some(p) && p.get("type"@) == Some(
                Json::Str("string"@),
            ) && p.get("default"@) == Some(Json::Str("${ZED_WORKTREE_ROOT}"@))
            &&& properties.get("deviceId"@) matches Some(p) && p.get("type"@) == Some(
                Json::Str("string"@),
            ) && p.get("default"@) is None
            &&& properties.get("toolArgs"@) matches Some(p) && p.get("type"@) == Some(
                Json::Str("array"@),
            ) && p.get("default"@) == Some(Json::Array(Seq::empty())) && p.get("items"@)
                == Some(Json::Object { keys: seq!["type"@], values: seq![Json::Str("string"@)] })
            &&& properties.get("args"@) matches Some(p) && p.get("type"@) == Some(
                Json::Str("array"@),
            ) && p.get("default"@) == Some(Json::Array(Seq::empty())) && p.get("items"@)
                == Some(Json::Object { keys: seq!["type"@], values: seq![Json::Str("string"@)] })
            &&& properties.get("env"@) matches Some(p) && p.get("type"@) == Some(
                Json::Str("object"@),
            ) && p.get("additionalProperties"@) == Some(
                Json::Object { keys: seq!["type"@], values: seq![Json::Str("string"@)] },
            )
            &&& properties.get("noDebug"@) matches Some(p) && p.get("type"@) == Some(
                Json::Str("boolean"@),
            ) && p.get("default"@) == Some(Json::Bool(false))
        },
        flutter_dap_schema().get("properties"@) matches Some(properties) && {
            &&& properties.get("program"@) matches Some(p) && p.get("description"@) == Some(
                Json::Str("Dart entrypoint, e.g. lib/main.dart"@),
            )
            &&& properties.get("cwd"@) matches Some(p) && p.get("description"@) == Some(
                Json::Str("Workspace relative or absolute path to the Flutter project root."@),
            )
            &&& properties.get("deviceId"@) matches Some(p) && p.get("description"@) == Some(
                Json::Str("Flutter device id to run on, e.g. macos, chrome, emulator-5554."@),
            )
            &&& properties.get("toolArgs"@) matches Some(p) && p.get("description"@) == Some(
                Json::Str("Extra arguments forwarded to `flutter debug_adapter`."@),
            )
            &&& properties.get("args"@) matches Some(p) && p.get("description"@) == Some(
                Json::Str("Extra arguments forwarded to the running app."@),
            )
            &&& properties.get("env"@) matches Some(p) && p.get("description"@) == Some(
                Json::Str("Environment variables to set when launching the app."@),
            )
            &&& properties.get("noDebug"@) matches Some(p) && p.get("description"@) == Some(
                Json::Str("Run without attaching a debugger."@),
            )
        },
{
    reveal_strlit("properties");
    reveal_strlit("request");
    reveal_strlit("program");
    reveal_strlit("cwd");
    reveal_strlit("deviceId");
    reveal_strlit("toolArgs");
    reveal_strlit("args");
    reveal_strlit("env");
    reveal_strlit("noDebug");
    reveal_strlit("type");
    reveal_strlit("enum");
    reveal_strlit("description");
    reveal_strlit("default");
    reveal_strlit("items");
    reveal_strlit("additionalProperties");
    let schema = flutter_dap_schema();
    lemma_get_reads_first_occurrence(schema->keys, schema->values, "properties"@);
    let props = schema->values[0];
    assert(schema.get("properties"@) == Some(props));
    let names = props->keys;
    let vals = props->values;
    assert forall|k: int, j: int| 0 <= j < k < 8 implies #[trigger] names[j] != #[trigger] names[k] by {
        assert(names[j][0] != names[k][0]);
    }
    assert forall|k: int| 0 <= k < 8 implies props.get(#[trigger] names[k]) == Some(vals[k]) by {
        lemma_get_reads_first_occurrence(names, vals, names[k]);
    }
    assert(props.get("request"@) == Some(vals[0]));
    assert(props.get("program"@) == Some(vals[1]));
    assert(props.get("cwd"@) == Some(vals[2]));
    assert(props.get("deviceId"@) == Some(vals[3]));
    assert(props.get("toolArgs"@) == Some(vals[4]));
    assert(props.get("args"@) == Some(vals[5]));
    assert(props.get("env"@) == Some(vals[6]));
    assert(props.get("noDebug"@) == Some(vals[7]));
    assert forall|k: int| 0 <= k < 8 implies (#[trigger] vals[k]).get("type"@) == Some(
        vals[k]->values[0],
    ) by {
        lemma_get_reads_first_occurrence(vals[k]->keys, vals[k]->values, "type"@);
    }
    assert("type"@[0] != "enum"@[0]);
    lemma_get_reads_first_occurrence(vals[0]->keys, vals[0]->values, "enum"@);
    assert("type"@[0] != "default"@[0] && "description"@[2] != "default"@[2]);
    lemma_get_reads_first_occurrence(vals[1]->keys, vals[1]->values, "default"@);
    lemma_get_reads_first_occurrence(vals[2]->keys, vals[2]->values, "default"@);
    lemma_get_reads_first_occurrence(vals[3]->keys, vals[3]->values, "default"@);
    lemma_get_reads_first_occurrence(vals[7]->keys, vals[7]->values, "default"@);
    assert("type"@[0] != "items"@[0] && "items"@[0] != "description"@[0] && "items"@[0]
        != "default"@[0]);
    lemma_get_reads_first_occurrence(vals[4]->keys, vals[4]->values, "default"@);
    lemma_get_reads_first_occurrence(vals[4]->keys, vals[4]->values, "items"@);
    lemma_get_reads_first_occurrence(vals[5]->keys, vals[5]->values, "default"@);
    lemma_get_reads_first_occurrence(vals[5]->keys, vals[5]->values, "items"@);
    assert("type"@[0] != "additionalProperties"@[0]);
    lemma_get_reads_first_occurrence(vals[6]->keys, vals[6]->values, "additionalProperties"@);
    assert("type"@[0] != "description"@[0] && "items"@[0] != "description"@[0]
        && "additionalProperties"@[0] != "description"@[0]);
    assert forall|k: int| 1 <= k < 8 implies (#[trigger] vals[k]).get("description"@) is Some by {
        lemma_get_reads_first_occurrence(vals[k]->keys, vals[k]->values, "description"@);
    }
    lemma_get_reads_first_occurrence(vals[1]->keys, vals[1]->values, "description"@);
    lemma_get_reads_first_occurrence(vals[2]->keys, vals[2]->values, "description"@);
    lemma_get_reads_first_occurrence(vals[3]->keys, vals[3]->values, "description"@);
    lemma_get_reads_first_occurrence(vals[4]->keys, vals[4]->values, "description"@);
    lemma_get_reads_first_occurrence(vals[5]->keys, vals[5]->values, "description"@);
    lemma_get_reads_first_occurrence(vals[6]->keys, vals[6]->values, "description"@);
    lemma_get_reads_first_occurrence(vals[7]->keys, vals[7]->values, "description"@);
}

} // verus!

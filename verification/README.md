# flutter_support

Flutter support for a code editor, verified with Verus.

- `src/json.rs` — `JsonValue`, the JSON document that launch configurations are
  made of, with its mathematical view `Json` and field lookup and update.
- `src/device_args.rs` — `apply_device_id`: merges a configuration's `deviceId`
  into `toolArgs` as `-d <id>`; proofs that the merge is idempotent, touches no
  other field, and leaves `toolArgs` selecting the device.
- `src/adapter.rs` — `FlutterDebugAdapter`: the launch schema, the adapter
  configuration built from an editor debug scenario, and how to start
  `flutter debug_adapter`.
- `src/devices.rs` — `FlutterDevice`, `device_label`, and the device picker's
  state (`FlutterDeviceModalDelegate`), which answers a launch at most once,
  and its list entries.
- `src/selector.rs` — the status-bar device selector's state machine.
- `src/dart.rs` — `DartLspAdapter`: which Dart executable runs the analysis
  server.
- `app/` — unverified glue: running `flutter devices --machine` (blocking),
  parsing its output with serde, converting between `serde_json::Value` and
  `JsonValue`, looking executables up on the `PATH` (in the order that
  `needs_flutter_lookup` decides), and checking worktree roots for
  `pubspec.yaml`. Paths reach the library as UTF-8 text.

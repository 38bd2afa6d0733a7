use vstd::prelude::*;

use crate::json::{
    is_first_key, items_view, keys_view, lemma_get_set_other, lemma_get_set_same,
    lemma_set_field_keeps_unique_keys, values_view, Json,
    JsonValue,
};

verus! {

/// The launch arguments that select a device: `-d <device>`.
pub open spec fn device_flag(device: Seq<char>) -> Seq<Json> {
    seq![Json::Str("-d"@), Json::Str(device)]
}

/// An argument that already selects a device.
pub open spec fn is_device_flag(arg: Json) -> bool {
    arg == Json::Str("-d"@) || arg == Json::Str("--device-id"@)
}

/// Some argument already selects a device.
pub open spec fn has_device_flag(args: Seq<Json>) -> bool {
    exists|i: int| 0 <= i < args.len() && is_device_flag(#[trigger] args[i])
}

/// A device id that starts with `-` reads as a command-line flag.
pub open spec fn looks_like_flag(device: Seq<char>) -> bool {
    device.len() > 0 && device[0] == '-'
}

/// The configuration with its `deviceId` merged into `toolArgs` as `-d <id>`.
///
/// Nothing changes where `deviceId` is missing or not a string, where it starts
/// with `-`, or where `toolArgs` already selects a device. An existing `toolArgs`
/// array keeps its arguments after the new ones; a `toolArgs` value that is not an
/// array is replaced.
pub open spec fn with_device_id(config: Json) -> Json {
    match config.get("deviceId"@) {
        Some(Json::Str(device)) => if looks_like_flag(device) {
            config
        } else {
            match config.get("toolArgs"@) {
                Some(Json::Array(args)) => if has_device_flag(args) {
                    config
                } else {
                    config.set_field("toolArgs"@, Json::Array(device_flag(device) + args))
                },
                _ => config.set_field("toolArgs"@, Json::Array(device_flag(device))),
            }
        },
        _ => config,
    }
}

/// Whether some argument is `-d` or `--device-id`.
fn has_device_flag_arg(args: &Vec<JsonValue>) -> (r: bool)
    ensures
        r == has_device_flag(items_view(args@)),
{
    let short = String::from_str("-d");
    let long = String::from_str("--device-id");
    let ghost view = items_view(args@);
    let mut i: usize = 0;
    while i < args.len()
        invariant
            i <= args.len(),
            view == items_view(args@),
            short@ == "-d"@,
            long@ == "--device-id"@,
            forall|j: int| 0 <= j < i ==> !is_device_flag(#[trigger] view[j]),
        decreases args.len() - i,
    {
        match &args[i] {
            JsonValue::String(s) => {
                if *s == short || *s == long {
                    assert(is_device_flag(view[i as int]));
                    return true;
                }
            },
            _ => {},
        }
        assert(!is_device_flag(view[i as int]));
        i += 1;
    }
    false
}

/// The array `["-d", device]`.
fn device_flag_array(device: String) -> (r: Vec<JsonValue>)
    ensures
        items_view(r@) == device_flag(device@),
{
    let mut args: Vec<JsonValue> = Vec::new();
    args.push(JsonValue::String(String::from_str("-d")));
    args.push(JsonValue::String(device));
    assert(items_view(args@) =~= device_flag(device@));
    args
}

/// Merges a `deviceId` config field into `toolArgs` as `-d <id>`, preserving any
/// existing `toolArgs` array (or discarding a malformed non-array value).
pub fn apply_device_id(config: &mut JsonValue)
    ensures
        final(config)@ == with_device_id(old(config)@),
        old(config)@.has_unique_keys() ==> final(config)@.has_unique_keys(),
{
    proof {
        lemma_device_id_keeps_unique_keys(*config);
    }
    let device_key = String::from_str("deviceId");
    let device = match config.get_str(&device_key) {
        Some(d) => d,
        None => return ,
    };
    if !device.as_str().is_empty() && device.as_str().get_char(0) == '-' {
        return ;
    }
    let tool_args_key = String::from_str("toolArgs");
    match config {
        JsonValue::Object(fields) => {
            let ghost old_fields = fields@;
            proof {
                JsonValue::lemma_object_view(*fields);
            }
            match JsonValue::field_index(fields, &tool_args_key) {
                Some(i) => {
                    let (key, value) = fields.remove(i);
                    let ghost old_value = value;
                    let new_value = match value {
                        JsonValue::Array(mut args) => {
                            proof {
                                JsonValue::lemma_array_view(args);
                            }
                            if !has_device_flag_arg(&args) {
                                let ghost old_args = args@;
                                args.insert(0, JsonValue::String(String::from_str("-d")));
                                args.insert(1, JsonValue::String(device));
                                assert(items_view(args@) =~= device_flag(device@) + items_view(
                                    old_args,
                                ));
                            }
                            proof {
                                JsonValue::lemma_array_view(args);
                            }
                            JsonValue::Array(args)
                        },
                        _ => {
                            let args = device_flag_array(device);
                            proof {
                                JsonValue::lemma_array_view(args);
                            }
                            JsonValue::Array(args)
                        },
                    };
                    fields.insert(i, (key, new_value));
                    proof {
                        let vals = values_view(old_fields);
                        assert(is_first_key(keys_view(old_fields), "toolArgs"@, i as int));
                        assert(vals[i as int] == old_value@);
                        assert(old(config)@.get("toolArgs"@) == Some(old_value@));
                        if new_value@ == old_value@ {
                            assert(vals.update(i as int, old_value@) =~= vals);
                        }
                        assert(fields@ =~= old_fields.update(i as int, (key, new_value)));
                        assert(keys_view(fields@) =~= keys_view(old_fields));
                        assert(values_view(fields@) =~= values_view(old_fields).update(
                            i as int,
                            new_value@,
                        ));
                        JsonValue::lemma_object_view(*fields);
                        assert(JsonValue::Object(*fields)@ == with_device_id(old(config)@));
                    }
                },
                None => {
                    let args = device_flag_array(device);
                    proof {
                        JsonValue::lemma_array_view(args);
                    }
                    fields.push((tool_args_key, JsonValue::Array(args)));
                    proof {
                        assert(keys_view(fields@) =~= keys_view(old_fields).push("toolArgs"@));
                        assert(values_view(fields@) =~= values_view(old_fields).push(
                            Json::Array(device_flag(device@)),
                        ));
                        JsonValue::lemma_object_view(*fields);
                        assert(JsonValue::Object(*fields)@ == with_device_id(old(config)@));
                    }
                },
            }
        },
        _ => {},
    }
}

/// Where a device is named by a string that is not a flag, merging it leaves
/// `toolArgs` an array that selects a device.
pub proof fn lemma_device_id_selects_device(config: JsonValue)
    requires
        config@.get("deviceId"@) matches Some(Json::Str(device)) && !looks_like_flag(device),
    ensures
        with_device_id(config@).get("toolArgs"@) matches Some(Json::Array(args))
            && has_device_flag(args),
{
    let c = config@;
    lemma_is_object(config);
    let device = c.get("deviceId"@)->0->Str_0;
    match c.get("toolArgs"@) {
        Some(Json::Array(args)) => {
            if has_device_flag(args) {
            } else {
                let new_args = device_flag(device) + args;
                lemma_get_set_same(c, "toolArgs"@, Json::Array(new_args));
                assert(is_device_flag(new_args[0]));
            }
        },
        _ => {
            lemma_get_set_same(c, "toolArgs"@, Json::Array(device_flag(device)));
            assert(is_device_flag(device_flag(device)[0]));
        },
    }
}

/// Merging a device id keeps the keys of the configuration unique.
pub proof fn lemma_device_id_keeps_unique_keys(config: JsonValue)
    ensures
        config@.has_unique_keys() ==> with_device_id(config@).has_unique_keys(),
{
    let c = config@;
    if c.has_unique_keys() && with_device_id(c) != c {
        let device = c.get("deviceId"@)->0->Str_0;
        match c.get("toolArgs"@) {
            Some(Json::Array(args)) => {
                lemma_set_field_keeps_unique_keys(c, "toolArgs"@, Json::Array(device_flag(device) + args));
            },
            _ => {
                lemma_set_field_keeps_unique_keys(c, "toolArgs"@, Json::Array(device_flag(device)));
            },
        }
    }
}

/// Merging a device id touches no field but `toolArgs`.
pub proof fn lemma_device_id_keeps_other_fields(config: JsonValue, key: Seq<char>)
    requires
        key != "toolArgs"@,
    ensures
        with_device_id(config@).get(key) == config@.get(key),
{
    let c = config@;
    if with_device_id(c) != c {
        lemma_is_object(config);
        let device = c.get("deviceId"@)->0->Str_0;
        match c.get("toolArgs"@) {
            Some(Json::Array(args)) => {
                lemma_get_set_other(c, "toolArgs"@, Json::Array(device_flag(device) + args), key);
            },
            _ => {
                lemma_get_set_other(c, "toolArgs"@, Json::Array(device_flag(device)), key);
            },
        }
    }
}

/// Merging a device id twice gives the same configuration as merging it once.
pub proof fn lemma_device_id_idempotent(config: JsonValue)
    ensures
        with_device_id(with_device_id(config@)) == with_device_id(config@),
{
    let c = config@;
    let once = with_device_id(c);
    if once != c {
        reveal_strlit("deviceId");
        reveal_strlit("toolArgs");
        assert("deviceId"@ != "toolArgs"@) by {
            assert("deviceId"@[0] != "toolArgs"@[0]);
        }
        lemma_device_id_keeps_other_fields(config, "deviceId"@);
        lemma_device_id_selects_device(config);
    }
}

/// Where `toolArgs` is an array that holds `-d` or `--device-id` at any position,
/// merging a device id leaves the configuration as it is.
pub proof fn lemma_existing_device_flag_wins(config: JsonValue, args: Seq<Json>, i: int)
    requires
        config@.get("toolArgs"@) == Some(Json::Array(args)),
        0 <= i < args.len(),
        args[i] == Json::Str("-d"@) || args[i] == Json::Str("--device-id"@),
    ensures
        with_device_id(config@) == config@,
{
    assert(is_device_flag(args[i]));
}

/// Where `deviceId` is a string that does not start with `-` and `toolArgs` is an
/// array in which no argument is `-d` or `--device-id`, merging puts `-d` and the
/// device id in front of the existing arguments, which keep their order.
pub proof fn lemma_device_id_prepended(config: JsonValue, device: Seq<char>, args: Seq<Json>)
    requires
        config@.get("deviceId"@) == Some(Json::Str(device)),
        !(device.len() > 0 && device[0] == '-'),
        config@.get("toolArgs"@) == Some(Json::Array(args)),
        forall|i: int|
            0 <= i < args.len() ==> #[trigger] args[i] != Json::Str("-d"@) && args[i] != Json::Str(
                "--device-id"@,
            ),
    ensures
        with_device_id(config@).get("toolArgs"@) matches Some(Json::Array(merged)) && merged.len()
            == args.len() + 2 && merged[0] == Json::Str("-d"@) && merged[1] == Json::Str(device)
            && forall|i: int| 0 <= i < args.len() ==> #[trigger] merged[i + 2] == args[i],
{
    lemma_is_object(config);
    assert(!has_device_flag(args)) by {
        if has_device_flag(args) {
            let i = choose|i: int| 0 <= i < args.len() && is_device_flag(#[trigger] args[i]);
            assert(args[i] != Json::Str("-d"@));
        }
    }
    let merged = device_flag(device) + args;
    lemma_get_set_same(config@, "toolArgs"@, Json::Array(merged));
    assert forall|i: int| 0 <= i < args.len() implies #[trigger] merged[i + 2] == args[i] by {}
}

/// Where `deviceId` is a string that does not start with `-` and `toolArgs` is
/// missing or not an array, merging sets `toolArgs` to exactly `-d` and the
/// device id.
pub proof fn lemma_device_id_replaces_missing_tool_args(config: JsonValue, device: Seq<char>)
    requires
        config@.get("deviceId"@) == Some(Json::Str(device)),
        !(device.len() > 0 && device[0] == '-'),
        !(config@.get("toolArgs"@) matches Some(Json::Array(_))),
    ensures
        with_device_id(config@).get("toolArgs"@) == Some(
            Json::Array(seq![Json::Str("-d"@), Json::Str(device)]),
        ),
{
    lemma_is_object(config);
    lemma_get_set_same(config@, "toolArgs"@, Json::Array(device_flag(device)));
}

/// A configuration without a string `deviceId`, or whose `deviceId` starts with
/// `-`, is left as it is.
pub proof fn lemma_no_usable_device_id(config: JsonValue)
    requires
        !(config@.get("deviceId"@) matches Some(Json::Str(device)) && !(device.len() > 0
            && device[0] == '-')),
    ensures
        with_device_id(config@) == config@,
{
}

/// Only an object names a device, and every object view lines up keys and values.
proof fn lemma_is_object(config: JsonValue)
    ensures
        config@ is Object ==> config@.is_object(),
        config@.get("deviceId"@) is Some ==> config@ is Object,
{
    if let JsonValue::Object(fields) = config {
        JsonValue::lemma_object_view(fields);
    }
}

} // verus!

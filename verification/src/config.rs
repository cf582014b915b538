//! The audio-device configuration file: a JSON object whose members
//! `input_device` and `output_device` name the devices the user picked.
//! Reading and writing the file itself is the caller's; this module turns
//! its text into the device list and back.
use crate::device::{opt_text, texts};
use vstd::prelude::*;

verus! {

/// `serde_json::from_str::<serde_json::Value>` of `text`, then the member
/// `key` read as a string: `None` when `text` is not JSON, `Some(None)`
/// when it is but holds no string member `key`.
pub uninterp spec fn json_str_member(text: Seq<char>, key: Seq<char>) -> Option<Option<Seq<char>>>;

/// The pretty-printed JSON object with the string members `k1: v1` and
/// `k2: v2`, as `serde_json::to_string_pretty` writes it.
pub uninterp spec fn json_two_member_object(
    k1: Seq<char>,
    v1: Seq<char>,
    k2: Seq<char>,
    v2: Seq<char>,
) -> Seq<char>;

/// A doubly optional string as a doubly optional character sequence.
pub open spec fn member_view(r: Option<Option<String>>) -> Option<Option<Seq<char>>> {
    match r {
        None => None,
        Some(None) => Some(None),
        Some(Some(s)) => Some(Some(s@)),
    }
}

/// Parses `text` with `serde_json::from_str` into a `serde_json::Value`
/// and reads its member `key` with `Index` and `Value::as_str`. Nothing is
/// claimed of the result but that it is the named function of the two
/// arguments.
#[verifier::external_body]
fn json_read_str_member(text: &str, key: &str) -> (r: Option<Option<String>>)
    ensures
        member_view(r) == json_str_member(text@, key@),
{
    match serde_json::from_str::<serde_json::Value>(text) {
        Ok(v) => Some(v[key].as_str().map(|s| s.to_string())),
        Err(_) => None,
    }
}

/// Builds a `serde_json::Value` object by inserting the string member
/// `k1: v1` and then `k2: v2` into a `serde_json::Map`, and prints it with
/// `serde_json::to_string_pretty`. Claimed: the printing succeeds (the
/// crate documents failure only where a `Serialize` impl fails or a map
/// has non-string keys, and `Value`'s impl on string keys and string
/// values, written into a `Vec<u8>`, has no failing path); the text is
/// the named function of the four arguments; and `serde_json::from_str`
/// reads each member back as the string that was put in (the later one
/// where the two keys are equal, since the second insert replaces the
/// first).
#[verifier::external_body]
fn json_write_two_members(k1: &str, v1: &str, k2: &str, v2: &str) -> (r: Option<String>)
    ensures
        r is Some,
        r matches Some(t) ==> {
            &&& t@ == json_two_member_object(k1@, v1@, k2@, v2@)
            &&& k1@ != k2@ ==> json_str_member(t@, k1@) == Some(Some(v1@))
            &&& json_str_member(t@, k2@) == Some(Some(v2@))
        },
{
    let mut map = serde_json::Map::new();
    map.insert(k1.to_string(), serde_json::Value::String(v1.to_string()));
    map.insert(k2.to_string(), serde_json::Value::String(v2.to_string()));
    serde_json::to_string_pretty(&serde_json::Value::Object(map)).ok()
}

/// A string member read as the device name: the string, or empty when
/// the member is missing or is not a string.
pub open spec fn name_or_empty_text(m: Option<Seq<char>>) -> Seq<char> {
    match m {
        Some(s) => s,
        None => Seq::<char>::empty(),
    }
}

/// The configured devices, input first: empty when there is no file text
/// or it is not JSON, else the two members read as names.
pub open spec fn spec_devices_from_config(text: Option<Seq<char>>) -> Seq<Seq<char>> {
    match text {
        None => Seq::<Seq<char>>::empty(),
        Some(t) => match (json_str_member(t, "input_device"@), json_str_member(t, "output_device"@)) {
            (Some(i), Some(o)) => seq![name_or_empty_text(i), name_or_empty_text(o)],
            _ => Seq::<Seq<char>>::empty(),
        },
    }
}

/// The configured devices, `[input, output]`, read from the text of the
/// configuration file (`None` when the file could not be read).
pub fn devices_from_config(text: Option<&str>) -> (devices: Vec<String>)
    ensures
        texts(devices@) == spec_devices_from_config(opt_text(text)),
{
    let mut devices: Vec<String> = Vec::new();
    match text {
        None => {},
        Some(t) => {
            let input = json_read_str_member(t, "input_device");
            let output = json_read_str_member(t, "output_device");
            match (input, output) {
                (Some(i), Some(o)) => {
                    let input_name = match i {
                        Some(s) => s,
                        None => String::new(),
                    };
                    let output_name = match o {
                        Some(s) => s,
                        None => String::new(),
                    };
                    devices.push(input_name);
                    devices.push(output_name);
                },
                _ => {},
            }
        },
    }
    assert(texts(devices@) =~= spec_devices_from_config(opt_text(text)));
    devices
}

/// The text of the configuration file naming `input` and `output`; it is
/// always produced. A text written here is read back by
/// `devices_from_config` as exactly `[input, output]`.
pub fn device_config_text(input: &str, output: &str) -> (text: Option<String>)
    ensures
        text is Some,
        text matches Some(t) ==> {
            &&& t@ == json_two_member_object("input_device"@, input@, "output_device"@, output@)
            &&& spec_devices_from_config(Some(t@)) == seq![input@, output@]
        },
{
    proof {
        reveal_strlit("input_device");
        reveal_strlit("output_device");
    }
    assert("input_device"@ != "output_device"@) by {
        assert("input_device"@[0] != "output_device"@[0]);
    }
    json_write_two_members("input_device", input, "output_device", output)
}

/// The devices to write when the user picks `input`: that input with the
/// configured output, or nothing when the configuration names fewer than
/// two devices.
pub fn with_input_device(current: &Vec<String>, input: &str) -> (r: Option<(String, String)>)
    ensures
        r is Some <==> current@.len() > 1,
        r matches Some((i, o)) ==> i@ == input@ && o@ == current@[1]@,
{
    if current.len() > 1 {
        Some((input.to_owned(), current[1].clone()))
    } else {
        None
    }
}

/// The devices to write when the user picks `output`: the configured
/// input with that output, or nothing when the configuration names fewer
/// than two devices.
pub fn with_output_device(current: &Vec<String>, output: &str) -> (r: Option<(String, String)>)
    ensures
        r is Some <==> current@.len() > 1,
        r matches Some((i, o)) ==> i@ == current@[0]@ && o@ == output@,
{
    if current.len() > 1 {
        Some((current[0].clone(), output.to_owned()))
    } else {
        None
    }
}

} // verus!

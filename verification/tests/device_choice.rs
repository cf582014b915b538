use discord2::device::{
    find_device, lookup, name_or_empty, resolve_input_device, resolve_output_device,
    usable_device_names, DeviceChoice, DeviceEntry,
};

fn entry(name: Option<&str>, has_config: bool) -> DeviceEntry {
    DeviceEntry { name: name.map(|s| s.to_string()), has_config }
}

fn host() -> Vec<DeviceEntry> {
    vec![
        entry(Some("Mic"), false),
        entry(None, true),
        entry(Some("Headset"), true),
        entry(Some("Mic"), true),
    ]
}

#[test]
fn usable_names_need_name_and_config() {
    assert_eq!(usable_device_names(&host()), vec!["Headset".to_string(), "Mic".to_string()]);
    assert_eq!(usable_device_names(&vec![]), Vec::<String>::new());
}

#[test]
fn find_takes_first_openable_match() {
    assert_eq!(find_device(&host(), "Mic"), Some(3));
    assert_eq!(find_device(&host(), "Headset"), Some(2));
    assert_eq!(find_device(&host(), "Speakers"), None);
}

#[test]
fn lookup_falls_back_to_default_input() {
    assert_eq!(lookup(Some(&host()), "Mic", false), Some(DeviceChoice::Listed(3)));
    assert_eq!(lookup(Some(&host()), "Nope", true), Some(DeviceChoice::DefaultInput));
    assert_eq!(lookup(Some(&host()), "Nope", false), None);
    assert_eq!(lookup(None, "Mic", true), Some(DeviceChoice::DefaultInput));
}

#[test]
fn input_resolution() {
    let h = host();
    assert_eq!(resolve_input_device(Some("Headset"), Some(&h), true), DeviceChoice::Listed(2));
    assert_eq!(resolve_input_device(None, None, true), DeviceChoice::DefaultInput);
    assert_eq!(resolve_input_device(Some("Nope"), Some(&h), false), DeviceChoice::Unavailable);
}

#[test]
fn output_resolution() {
    let h = host();
    assert_eq!(resolve_output_device(Some("Headset"), Some(&h), true, true), DeviceChoice::Listed(2));
    // a configured but missing output device falls back to the default input device
    assert_eq!(resolve_output_device(Some("Nope"), Some(&h), true, true), DeviceChoice::DefaultInput);
    assert_eq!(resolve_output_device(Some("Nope"), Some(&h), false, true), DeviceChoice::DefaultOutput);
    assert_eq!(resolve_output_device(None, None, true, true), DeviceChoice::DefaultOutput);
    assert_eq!(resolve_output_device(None, None, true, false), DeviceChoice::Unavailable);
}

#[test]
fn default_name_or_empty() {
    assert_eq!(name_or_empty(Some("Speakers".to_string())), "Speakers");
    assert_eq!(name_or_empty(None), "");
}

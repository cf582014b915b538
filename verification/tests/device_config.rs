use discord2::config::{device_config_text, devices_from_config, with_input_device, with_output_device};

#[test]
fn no_file_no_devices() {
    assert_eq!(devices_from_config(None), Vec::<String>::new());
}

#[test]
fn broken_json_no_devices() {
    assert_eq!(devices_from_config(Some("{\"input_device\": ")), Vec::<String>::new());
    assert_eq!(devices_from_config(Some("")), Vec::<String>::new());
}

#[test]
fn both_members_read() {
    let text = "{\"input_device\":\"Mic\",\"output_device\":\"Speakers\"}";
    assert_eq!(devices_from_config(Some(text)), vec!["Mic".to_string(), "Speakers".to_string()]);
}

#[test]
fn missing_or_non_string_members_read_empty() {
    assert_eq!(
        devices_from_config(Some("{\"input_device\": 3}")),
        vec!["".to_string(), "".to_string()]
    );
    assert_eq!(devices_from_config(Some("42")), vec!["".to_string(), "".to_string()]);
}

#[test]
fn written_text_is_pretty_json() {
    assert_eq!(
        device_config_text("Mic", "Out").unwrap(),
        "{\n  \"input_device\": \"Mic\",\n  \"output_device\": \"Out\"\n}"
    );
}

#[test]
fn read_after_write() {
    for (i, o) in [("Mic", "Out"), ("", ""), ("a \"quoted\" \\ name", "Lautsprecher (Realtek® Audio) ✓")] {
        let text = device_config_text(i, o).unwrap();
        assert_eq!(devices_from_config(Some(&text)), vec![i.to_string(), o.to_string()]);
    }
}

#[test]
fn picking_input_keeps_output() {
    let cur = vec!["Mic".to_string(), "Out".to_string()];
    assert_eq!(with_input_device(&cur, "Headset"), Some(("Headset".to_string(), "Out".to_string())));
    assert_eq!(with_output_device(&cur, "Phones"), Some(("Mic".to_string(), "Phones".to_string())));
    assert_eq!(with_input_device(&vec![], "Headset"), None);
    assert_eq!(with_output_device(&vec!["Mic".to_string()], "Phones"), None);
}

use flutter_support::devices::{
    device_entry_element_id, device_label, FlutterDevice, FlutterDeviceModalDelegate,
};

fn device(id: &str, name: &str) -> FlutterDevice {
    FlutterDevice {
        id: id.into(),
        name: name.into(),
    }
}

#[test]
fn device_label_prefers_name_over_id() {
    let devices = vec![device("macos", "macOS"), device("chrome", "Chrome")];
    assert_eq!(device_label(&devices, Some("macos")).as_str(), "macOS");
}

#[test]
fn device_label_falls_back_to_id_when_not_listed() {
    let devices = vec![device("macos", "macOS")];
    assert_eq!(device_label(&devices, Some("missing")).as_str(), "missing");
}

#[test]
fn device_label_default_when_none_selected() {
    let devices = vec![device("macos", "macOS")];
    assert_eq!(device_label(&devices, None).as_str(), "Select Device");
}

#[test]
fn device_label_uses_first_device_with_the_id() {
    let devices = vec![device("chrome", "Chrome"), device("chrome", "Chrome (beta)")];
    assert_eq!(device_label(&devices, Some("chrome")).as_str(), "Chrome");
}

#[test]
fn device_label_with_no_devices_shows_the_id() {
    assert_eq!(device_label(&[], Some("macos")).as_str(), "macos");
}

fn picker() -> FlutterDeviceModalDelegate {
    FlutterDeviceModalDelegate::new(vec![
        device("macos", "macOS"),
        device("chrome", "Chrome"),
        device("emulator-5554", "Pixel 7"),
    ])
}

#[test]
fn picker_starts_empty_and_waiting() {
    let picker = picker();
    assert_eq!(picker.match_count(), 0);
    assert_eq!(picker.selected_index(), 0);
    assert_eq!(
        picker.placeholder_text().as_str(),
        "Select the Flutter device to launch on"
    );
}

#[test]
fn picker_match_candidates_are_name_then_id() {
    let picker = picker();
    assert_eq!(
        picker.match_candidates(),
        vec![
            "macOS macos".to_string(),
            "Chrome chrome".to_string(),
            "Pixel 7 emulator-5554".to_string()
        ]
    );
}

#[test]
fn picker_confirm_sends_selected_device_id_once() {
    let mut picker = picker();
    picker.set_matches(vec![2, 0]);
    picker.set_selected_index(0);
    assert_eq!(picker.confirm(), Some(Some("emulator-5554".to_string())));
    assert_eq!(picker.confirm(), None);
    assert_eq!(picker.dismissed(), None);
}

#[test]
fn picker_confirm_without_matches_sends_no_device() {
    let mut picker = picker();
    assert_eq!(picker.confirm(), Some(None));
}

#[test]
fn picker_dismiss_sends_no_device_once() {
    let mut picker = picker();
    picker.set_matches(vec![1, 2]);
    picker.set_selected_index(1);
    assert_eq!(picker.dismissed(), Some(None));
    assert_eq!(picker.selected_index(), 0);
    assert_eq!(picker.dismissed(), None);
    assert_eq!(picker.confirm(), None);
}

#[test]
fn picker_new_matches_clamp_selection() {
    let mut picker = picker();
    picker.set_matches(vec![0, 1, 2]);
    picker.set_selected_index(2);
    picker.set_matches(vec![1]);
    assert_eq!(picker.selected_index(), 0);
    assert_eq!(picker.match_count(), 1);
    picker.set_matches(vec![]);
    assert_eq!(picker.selected_index(), 0);
    picker.set_matches(vec![2, 1, 0]);
    picker.set_selected_index(1);
    picker.set_matches(vec![0, 2]);
    assert_eq!(picker.selected_index(), 1);
    assert_eq!(picker.confirm(), Some(Some("emulator-5554".to_string())));
}

#[test]
fn picker_match_device_follows_matches() {
    let mut picker = picker();
    picker.set_matches(vec![1, 7]);
    assert_eq!(picker.match_device(0), Some(&device("chrome", "Chrome")));
    assert_eq!(picker.match_device(1), None);
    assert_eq!(picker.match_device(2), None);
}

#[test]
fn picker_name_and_selection_after_matches() {
    assert_eq!(FlutterDeviceModalDelegate::name(), "flutter device modal");
    let mut picker = picker();
    picker.set_selected_index(5);
    picker.set_matches(vec![0, 1]);
    assert_eq!(picker.selected_index(), 1);
    picker.set_matches(vec![]);
    assert_eq!(picker.selected_index(), 0);
}

#[test]
fn picker_render_match_builds_entry() {
    let mut picker = picker();
    picker.set_matches(vec![2, 0, 9]);
    let entry = picker.render_match(0, true).unwrap();
    assert_eq!(entry.element_id, "flutter-device-entry-0");
    assert!(entry.selected);
    assert_eq!(entry.title, "Pixel 7");
    assert_eq!(entry.subtitle, "emulator-5554");
    let entry = picker.render_match(1, false).unwrap();
    assert_eq!(entry.element_id, "flutter-device-entry-1");
    assert!(!entry.selected);
    assert_eq!(entry.title, "macOS");
    assert!(picker.render_match(2, false).is_none());
    assert!(picker.render_match(3, false).is_none());
}

#[test]
fn device_entry_element_ids_are_decimal() {
    assert_eq!(device_entry_element_id(7), "flutter-device-entry-7");
    assert_eq!(device_entry_element_id(10), "flutter-device-entry-10");
    assert_eq!(device_entry_element_id(305), "flutter-device-entry-305");
    assert_eq!(
        device_entry_element_id(usize::MAX),
        format!("flutter-device-entry-{}", usize::MAX)
    );
}

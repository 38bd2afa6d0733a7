use flutter_support::selector::flutter_worktree;
use flutter_support::devices::FlutterDevice;
use flutter_support::selector::{FlutterDeviceSelector, RefreshAction, SelectedFlutterDevice};

fn device(id: &str, name: &str) -> FlutterDevice {
    FlutterDevice {
        id: id.into(),
        name: name.into(),
    }
}

#[test]
fn selector_starts_hidden() {
    let selector = FlutterDeviceSelector::new();
    assert!(!selector.is_visible());
    assert_eq!(selector.label(None).as_str(), "Select Device");
}

#[test]
fn selector_refresh_lists_devices_once_per_worktree() {
    let mut selector = FlutterDeviceSelector::new();
    assert_eq!(selector.refresh(Some(3)), RefreshAction::ListDevices);
    assert_eq!(selector.refresh(Some(3)), RefreshAction::Unchanged);
    assert_eq!(selector.refresh(Some(4)), RefreshAction::ListDevices);
    assert_eq!(selector.refresh(None), RefreshAction::Cleared);
    assert_eq!(selector.refresh(None), RefreshAction::Unchanged);
}

#[test]
fn selector_selects_first_device_when_nothing_selected() {
    let mut selector = FlutterDeviceSelector::new();
    selector.refresh(Some(1));
    let selection = selector.devices_listed(
        1,
        Some(vec![device("macos", "macOS"), device("chrome", "Chrome")]),
        None,
    );
    assert_eq!(selection.map(|d| d.0), Some("macos".to_string()));
    assert!(selector.is_visible());
}

#[test]
fn selector_keeps_existing_selection() {
    let mut selector = FlutterDeviceSelector::new();
    selector.refresh(Some(1));
    let current = SelectedFlutterDevice("chrome".to_string());
    let selection = selector.devices_listed(
        1,
        Some(vec![device("macos", "macOS"), device("chrome", "Chrome")]),
        Some(&current),
    );
    assert!(selection.is_none());
    assert_eq!(selector.label(Some(&current)).as_str(), "Chrome");
}

#[test]
fn selector_failed_listing_hides_item() {
    let mut selector = FlutterDeviceSelector::new();
    selector.refresh(Some(1));
    assert!(selector.devices_listed(1, None, None).is_none());
    assert!(!selector.is_visible());
}

#[test]
fn selector_cleared_worktree_hides_item() {
    let mut selector = FlutterDeviceSelector::new();
    selector.refresh(Some(1));
    selector.devices_listed(1, Some(vec![device("macos", "macOS")]), None);
    assert!(selector.is_visible());
    assert_eq!(selector.refresh(None), RefreshAction::Cleared);
    assert!(!selector.is_visible());
    assert!(selector.menu_entries().is_empty());
}

#[test]
fn selector_menu_lists_names_selecting_ids() {
    let mut selector = FlutterDeviceSelector::new();
    selector.refresh(Some(9));
    selector.devices_listed(
        9,
        Some(vec![device("macos", "macOS"), device("chrome", "Chrome")]),
        None,
    );
    let entries: Vec<(String, String)> = selector
        .menu_entries()
        .into_iter()
        .map(|(name, selected)| (name, selected.0))
        .collect();
    assert_eq!(
        entries,
        vec![
            ("macOS".to_string(), "macos".to_string()),
            ("Chrome".to_string(), "chrome".to_string())
        ]
    );
}

#[test]
fn selector_label_shows_unlisted_selection_id() {
    let mut selector = FlutterDeviceSelector::new();
    selector.refresh(Some(1));
    selector.devices_listed(1, Some(vec![device("macos", "macOS")]), None);
    let current = SelectedFlutterDevice("linux".to_string());
    assert_eq!(selector.label(Some(&current)).as_str(), "linux");
}

#[test]
fn flutter_worktree_is_first_with_pubspec() {
    assert_eq!(flutter_worktree(&[(4, false), (7, true), (9, true)]), Some(7));
    assert_eq!(flutter_worktree(&[(4, false)]), None);
    assert_eq!(flutter_worktree(&[]), None);
}

#[test]
fn selector_ignores_abandoned_listing() {
    let mut selector = FlutterDeviceSelector::new();
    selector.refresh(Some(1));
    selector.refresh(Some(2));
    assert!(selector
        .devices_listed(1, Some(vec![device("macos", "macOS")]), None)
        .is_none());
    assert!(!selector.is_visible());
    let selection = selector.devices_listed(2, Some(vec![device("chrome", "Chrome")]), None);
    assert_eq!(selection.map(|d| d.0), Some("chrome".to_string()));
    assert!(selector
        .devices_listed(2, Some(vec![device("linux", "Linux")]), None)
        .is_none());
    assert_eq!(selector.label(None).as_str(), "Select Device");
    assert_eq!(
        selector.menu_entries().len(),
        1
    );
}

#[test]
fn selector_button_has_label_and_tooltip() {
    let mut selector = FlutterDeviceSelector::new();
    assert!(selector.button(None).is_none());
    selector.refresh(Some(1));
    selector.devices_listed(1, Some(vec![device("macos", "macOS")]), None);
    let current = SelectedFlutterDevice("macos".to_string());
    let button = selector.button(Some(&current)).unwrap();
    assert_eq!(button.label, "macOS");
    assert_eq!(button.tooltip, "Select Flutter Device");
}

#[test]
fn selector_listing_after_clear_keeps_item_hidden() {
    let mut selector = FlutterDeviceSelector::new();
    selector.refresh(Some(1));
    selector.refresh(None);
    selector.devices_listed(1, Some(vec![device("macos", "macOS")]), None);
    assert!(!selector.is_visible());
}

use std::collections::HashMap;

use adabraka_gpui::ico::is_valid_ico;
use adabraka_gpui::tray_menu::{BALLOON_TEXT_CAPACITY, BALLOON_TITLE_CAPACITY};
use adabraka_gpui::tray_menu::{
    build_menu, fitted_text_units, NativeMenuEntry, TrayMenuItem, TOOLTIP_CAPACITY,
};

fn minimal_ico() -> Vec<u8> {
    let mut data = vec![
        0, 0, // reserved
        1, 0, // icon type
        1, 0, // image count
        1, 1, // width, height
        0, // color count
        0, // reserved
        1, 0, // color planes
        32, 0, // bits per pixel
        4, 0, 0, 0, // image size
        22, 0, 0, 0, // image offset
    ];
    data.extend_from_slice(&[1, 2, 3, 4]);
    data
}

#[test]
fn rejects_non_ico_data() {
    assert!(!is_valid_ico(b"\x89PNG\r\n\x1a\n"));
}

#[test]
fn rejects_truncated_ico_directory() {
    let mut data = minimal_ico();
    data.truncate(10);
    assert!(!is_valid_ico(&data));
}

#[test]
fn rejects_ico_entry_outside_input() {
    let mut data = minimal_ico();
    data[14..18].copy_from_slice(&100_u32.to_le_bytes());
    assert!(!is_valid_ico(&data));
}

#[test]
fn accepts_ico_with_valid_directory_entry() {
    assert!(is_valid_ico(&minimal_ico()));
}

#[test]
fn rejects_ico_without_images_or_with_wrong_type() {
    let mut data = minimal_ico();
    data[4] = 0;
    assert!(!is_valid_ico(&data));
    let mut data = minimal_ico();
    data[2] = 2;
    assert!(!is_valid_ico(&data));
    let mut data = minimal_ico();
    data[18..22].copy_from_slice(&23_u32.to_le_bytes());
    assert!(!is_valid_ico(&data));
}

fn action(label: &str, id: &str) -> TrayMenuItem {
    TrayMenuItem::Action { label: label.to_string(), id: id.to_string() }
}

#[test]
fn native_menu_commands_are_numbered_in_menu_order() {
    let items = vec![
        action("Open", "open"),
        TrayMenuItem::Separator,
        TrayMenuItem::Submenu {
            label: "More".to_string(),
            items: vec![
                TrayMenuItem::Toggle { label: "Sync".to_string(), checked: true, id: "sync".to_string() },
                action("About", "about"),
            ],
        },
        action("Quit", "quit"),
    ];
    let mut counter: u32 = 1000;
    let mut id_map: HashMap<u32, String> = HashMap::new();
    let entries = build_menu(&items, &mut counter, &mut id_map);

    assert_eq!(counter, 1004);
    assert_eq!(id_map.len(), 4);
    assert_eq!(id_map[&1000], "open");
    assert_eq!(id_map[&1001], "sync");
    assert_eq!(id_map[&1002], "about");
    assert_eq!(id_map[&1003], "quit");

    assert_eq!(entries.len(), 4);
    assert!(matches!(&entries[0], NativeMenuEntry::Command { label, command_id: 1000, checked: false } if label == "Open"));
    assert!(matches!(&entries[1], NativeMenuEntry::Separator));
    match &entries[2] {
        NativeMenuEntry::Popup { label, entries } => {
            assert_eq!(label, "More");
            assert!(matches!(&entries[0], NativeMenuEntry::Command { command_id: 1001, checked: true, .. }));
            assert!(matches!(&entries[1], NativeMenuEntry::Command { command_id: 1002, checked: false, .. }));
        }
        other => panic!("expected a popup, got {other:?}"),
    }
    assert!(matches!(&entries[3], NativeMenuEntry::Command { command_id: 1003, .. }));
}

#[test]
fn tooltips_keep_room_for_the_terminating_zero() {
    assert_eq!(fitted_text_units(5, TOOLTIP_CAPACITY), 5);
    assert_eq!(fitted_text_units(127, TOOLTIP_CAPACITY), 127);
    assert_eq!(fitted_text_units(500, TOOLTIP_CAPACITY), 127);
    assert_eq!(fitted_text_units(0, 1), 0);
}

#[test]
fn balloon_texts_are_cut_to_their_fields() {
    assert_eq!(fitted_text_units(1000, BALLOON_TITLE_CAPACITY), 63);
    assert_eq!(fitted_text_units(1000, BALLOON_TEXT_CAPACITY), 255);
    assert_eq!(fitted_text_units(10, BALLOON_TITLE_CAPACITY), 10);
}

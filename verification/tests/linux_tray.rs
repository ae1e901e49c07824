use adabraka_gpui::status_notifier::{char_is_whitespace, default_status_notifier_id, derive_status_notifier_id_from_path};
use adabraka_gpui::tray_menu::{convert_menu_item, SniMenuItem, TrayMenuItem};
use adabraka_gpui::pixels::{icon_pixmap, pixmaps_from_decoded, rgba_to_argb};

#[test]
fn derives_status_notifier_id_from_executable_stem() {
    assert_eq!(
        derive_status_notifier_id_from_path("/opt/BananaTray/bin/bananatray"),
        Some("bananatray".to_string())
    );
}

#[test]
fn drops_executable_suffix_when_deriving_status_notifier_id() {
    assert_eq!(
        derive_status_notifier_id_from_path("/opt/BananaTray/bin/BananaTray.exe"),
        Some("BananaTray".to_string())
    );
}

#[test]
fn returns_none_when_executable_name_is_missing() {
    assert_eq!(derive_status_notifier_id_from_path("/"), None);
}

#[test]
fn status_notifier_id_is_trimmed_and_falls_back_to_default() {
    assert_eq!(
        derive_status_notifier_id_from_path("/opt/app/  spaced name  .bin"),
        Some("spaced name".to_string())
    );
    assert_eq!(derive_status_notifier_id_from_path("/opt/app/   "), None);
    assert_eq!(default_status_notifier_id(None), "gpui-tray".to_string());
    assert_eq!(default_status_notifier_id(Some("/")), "gpui-tray".to_string());
    assert_eq!(default_status_notifier_id(Some("/usr/bin/tray-app")), "tray-app".to_string());
}

#[test]
fn menu_items_convert_for_status_notifier_hosts() {
    let item = TrayMenuItem::Submenu {
        label: "More".to_string(),
        items: vec![
            TrayMenuItem::Action { label: "Open".to_string(), id: "open".to_string() },
            TrayMenuItem::Separator,
            TrayMenuItem::Toggle { label: "Dark".to_string(), checked: true, id: "dark".to_string() },
            TrayMenuItem::Toggle { label: "Mute".to_string(), checked: false, id: "mute".to_string() },
        ],
    };
    match convert_menu_item(&item) {
        SniMenuItem::SubMenu { label, items } => {
            assert_eq!(label, "More");
            assert_eq!(items.len(), 4);
            match &items[0] {
                SniMenuItem::Standard { label, icon_name, action_id } => {
                    assert_eq!(label, "Open");
                    assert_eq!(icon_name, "");
                    assert_eq!(action_id, "open");
                }
                other => panic!("unexpected {other:?}"),
            }
            assert!(matches!(items[1], SniMenuItem::Separator));
            match &items[2] {
                SniMenuItem::Standard { icon_name, action_id, .. } => {
                    assert_eq!(icon_name, "checkbox-checked-symbolic");
                    assert_eq!(action_id, "dark");
                }
                other => panic!("unexpected {other:?}"),
            }
            match &items[3] {
                SniMenuItem::Standard { icon_name, .. } => assert_eq!(icon_name, ""),
                other => panic!("unexpected {other:?}"),
            }
        }
        other => panic!("unexpected {other:?}"),
    }
}

#[test]
fn rgba_pixels_become_argb() {
    assert_eq!(rgba_to_argb(&vec![1, 2, 3, 4, 5, 6, 7, 8, 9]), vec![4, 1, 2, 3, 8, 5, 6, 7]);
}

#[test]
fn icon_pixmap_of_empty_or_undecodable_data_is_empty() {
    assert!(icon_pixmap(&[]).is_empty());
    assert!(icon_pixmap(b"not an image").is_empty());
}

#[test]
fn icon_pixmap_decodes_png_into_argb() {
    let mut png = Vec::new();
    let image = image::RgbaImage::from_raw(1, 1, vec![10, 20, 30, 40]).unwrap();
    image
        .write_to(&mut std::io::Cursor::new(&mut png), image::ImageFormat::Png)
        .unwrap();
    let icons = icon_pixmap(&png);
    assert_eq!(icons.len(), 1);
    assert_eq!(icons[0].width, 1);
    assert_eq!(icons[0].height, 1);
    assert_eq!(icons[0].data, vec![40, 10, 20, 30]);
}

#[test]
fn white_space_is_the_unicode_property() {
    for code in 0u32..=0x3100 {
        if let Some(c) = char::from_u32(code) {
            assert_eq!(char_is_whitespace(c), c.is_whitespace(), "U+{code:04X}");
        }
    }
    assert!(!char_is_whitespace('\u{feff}'));
    assert!(!char_is_whitespace('\u{200b}'));
    assert_eq!(
        derive_status_notifier_id_from_path("/opt/app/\u{3000}tray\u{2029}.bin"),
        Some("tray".to_string())
    );
}

#[test]
fn decoded_icons_become_one_argb_pixmap() {
    assert!(pixmaps_from_decoded(None).is_empty());
    let icons = pixmaps_from_decoded(Some((2, 1, vec![1, 2, 3, 4, 5, 6, 7, 8])));
    assert_eq!(icons.len(), 1);
    assert_eq!((icons[0].width, icons[0].height), (2, 1));
    assert_eq!(icons[0].data, vec![4, 1, 2, 3, 8, 5, 6, 7]);
}

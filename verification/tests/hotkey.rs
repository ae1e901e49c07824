use adabraka_gpui::hotkey::{
    carbon_modifiers, hotkey_to_native, semantic_hotkey_for_key_code, KeyLayoutChars,
    KeyboardLayout, Keystroke, Modifiers, NativeHotkey,
};

fn chars(plain: &str, shifted: &str) -> KeyLayoutChars {
    KeyLayoutChars {
        plain: plain.to_string(),
        shifted: shifted.to_string(),
        command: plain.to_string(),
        command_shifted: shifted.to_string(),
    }
}

fn no_chars() -> KeyLayoutChars {
    chars("", "")
}

fn us_layout() -> KeyboardLayout {
    let mut keys: Vec<KeyLayoutChars> = (0..=0x7e).map(|_| no_chars()).collect();
    keys[0x00] = chars("a", "A");
    keys[0x12] = chars("1", "!");
    keys[0x1b] = chars("-", "_");
    KeyboardLayout { keys, always_use_command_layout: false }
}

#[test]
fn maps_non_printable_key_codes_without_character_translation() {
    let none = no_chars();
    assert_eq!(semantic_hotkey_for_key_code(0x33, Modifiers::default(), &none, false).key, "backspace");
    assert_eq!(semantic_hotkey_for_key_code(0x72, Modifiers::default(), &none, false).key, "insert");
    assert_eq!(semantic_hotkey_for_key_code(0x73, Modifiers::default(), &none, false).key, "home");
    assert_eq!(semantic_hotkey_for_key_code(0x75, Modifiers::default(), &none, false).key, "delete");
    assert_eq!(semantic_hotkey_for_key_code(0x7b, Modifiers::default(), &none, false).key, "left");
    assert_eq!(semantic_hotkey_for_key_code(0x7a, Modifiers::default(), &none, false).key, "f1");
}

#[test]
fn only_suppresses_function_modifier_for_standalone_function_keys() {
    let function = Modifiers { function: true, ..Modifiers::default() };
    let none = no_chars();

    assert!(!semantic_hotkey_for_key_code(0x7b, function, &none, false).modifiers.function);
    assert!(!semantic_hotkey_for_key_code(0x7a, function, &none, false).modifiers.function);
    assert!(semantic_hotkey_for_key_code(0x33, function, &none, false).modifiers.function);
}

#[test]
fn layout_characters_name_printable_keys() {
    let a = chars("a", "A");
    let stroke = semantic_hotkey_for_key_code(0x00, Modifiers::default(), &a, false);
    assert_eq!(stroke.key, "a");
    assert!(!stroke.modifiers.shift);
    let shifted = Modifiers { shift: true, ..Modifiers::default() };
    let stroke = semantic_hotkey_for_key_code(0x00, shifted, &a, false);
    assert_eq!(stroke.key, "a");
    assert!(stroke.modifiers.shift);
    let one = chars("1", "!");
    let stroke = semantic_hotkey_for_key_code(0x12, shifted, &one, false);
    assert_eq!(stroke.key, "!");
    assert!(!stroke.modifiers.shift);
    let arrow = chars("\u{f700}", "\u{f700}");
    assert_eq!(semantic_hotkey_for_key_code(0x10, Modifiers::default(), &arrow, false).key, "up");
    let f35 = chars("\u{f726}", "\u{f726}");
    assert_eq!(semantic_hotkey_for_key_code(0x10, Modifiers::default(), &f35, false).key, "f35");
}

#[test]
fn command_layer_supplies_shifted_characters() {
    let key = KeyLayoutChars {
        plain: "q".to_string(),
        shifted: "Q".to_string(),
        command: "a".to_string(),
        command_shifted: "a".to_string(),
    };
    let command_shift = Modifiers { platform: true, shift: true, ..Modifiers::default() };
    let stroke = semantic_hotkey_for_key_code(0x0c, command_shift, &key, false);
    assert_eq!(stroke.key, "a");
    assert!(stroke.modifiers.shift);
    let key = KeyLayoutChars {
        plain: "1".to_string(),
        shifted: "!".to_string(),
        command: "1".to_string(),
        command_shifted: "1".to_string(),
    };
    let stroke = semantic_hotkey_for_key_code(0x12, command_shift, &key, false);
    assert_eq!(stroke.key, "!");
    assert!(!stroke.modifiers.shift);
    let stroke = semantic_hotkey_for_key_code(0x12, Modifiers { shift: true, ..Modifiers::default() }, &key, true);
    assert_eq!(stroke.key, "!");
}

#[test]
fn carbon_modifier_masks() {
    assert_eq!(carbon_modifiers(Modifiers::default()), 0);
    assert_eq!(carbon_modifiers(Modifiers { platform: true, ..Modifiers::default() }), 0x100);
    assert_eq!(
        carbon_modifiers(Modifiers {
            control: true,
            alt: true,
            shift: true,
            platform: true,
            function: true,
        }),
        0x100 | 0x200 | 0x800 | 0x1000 | 0x20000
    );
}

#[test]
fn hotkeys_are_found_on_the_layout() {
    let layout = us_layout();
    let cmd_a = Keystroke {
        modifiers: Modifiers { platform: true, ..Modifiers::default() },
        key: "a".to_string(),
        key_char: None,
    };
    assert_eq!(hotkey_to_native(&cmd_a, &layout), Ok(NativeHotkey { key_code: 0, modifiers: 0x100 }));
    let bang = Keystroke { modifiers: Modifiers::default(), key: "!".to_string(), key_char: None };
    assert_eq!(hotkey_to_native(&bang, &layout), Ok(NativeHotkey { key_code: 0x12, modifiers: 0x200 }));
    let f1 = Keystroke { modifiers: Modifiers::default(), key: "f1".to_string(), key_char: None };
    assert_eq!(hotkey_to_native(&f1, &layout), Ok(NativeHotkey { key_code: 0x7a, modifiers: 0 }));
    let missing = Keystroke { modifiers: Modifiers::default(), key: "ß".to_string(), key_char: None };
    let error = hotkey_to_native(&missing, &layout).unwrap_err();
    assert_eq!(error.key, "ß");
}

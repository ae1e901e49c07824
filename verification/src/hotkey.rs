//! Translation of keystrokes into native global hotkey registrations for the
//! Carbon hotkey API: key names for virtual key codes, modifier bit masks,
//! and the search over the keyboard layout for the key code that produces a
//! requested keystroke.
//!
//! The characters that the active keyboard layout produces for each key are
//! read from the operating system by the caller and handed in as a
//! [`KeyboardLayout`].

use vstd::prelude::*;
use crate::text::{decimal_seq, digit_char, all_ascii_lower, ascii_upper_seq, owned, str_all_ascii_lower, str_ascii_upper};

verus! {

/// Carbon modifier bit for the command key.
pub const CMD_KEY: u32 = 0x100;
/// Carbon modifier bit for the shift key.
pub const SHIFT_KEY: u32 = 0x200;
/// Carbon modifier bit for the option key.
pub const OPTION_KEY: u32 = 0x800;
/// Carbon modifier bit for the control key.
pub const CONTROL_KEY: u32 = 0x1000;
/// Carbon modifier bit for the function key.
pub const FN_KEY: u32 = 0x20000;
/// The highest virtual key code that is searched.
pub const MAX_VIRTUAL_KEY_CODE: u16 = 0x7e;

/// The state of the modifier keys.
#[derive(Clone, Copy, Debug, Default, PartialEq, Eq, Structural)]
pub struct Modifiers {
    pub control: bool,
    pub alt: bool,
    pub shift: bool,
    pub platform: bool,
    pub function: bool,
}

/// A key together with the modifiers held while pressing it.
#[derive(Clone, Debug, PartialEq, Eq)]
pub struct Keystroke {
    pub modifiers: Modifiers,
    /// The name of the key, such as `"a"`, `"enter"` or `"f1"`.
    pub key: String,
    /// The character the keystroke produces, where known.
    pub key_char: Option<String>,
}

/// A hotkey as registered with the native API.
#[derive(Clone, Copy, Debug, PartialEq, Eq, Structural)]
pub struct NativeHotkey {
    pub key_code: u32,
    pub modifiers: u32,
}

/// The characters one key produces under the keyboard layout.
#[derive(Clone, Debug, PartialEq, Eq)]
pub struct KeyLayoutChars {
    /// With no modifiers held.
    pub plain: String,
    /// With shift held.
    pub shifted: String,
    /// With command held.
    pub command: String,
    /// With command and shift held.
    pub command_shifted: String,
}

/// The characters of every virtual key code up to [`MAX_VIRTUAL_KEY_CODE`],
/// indexed by key code, and whether the layout always maps keys through
/// the command layer.
#[derive(Clone, Debug, PartialEq, Eq)]
pub struct KeyboardLayout {
    pub keys: Vec<KeyLayoutChars>,
    pub always_use_command_layout: bool,
}

/// The error of a keystroke that no key of the layout produces.
#[derive(Clone, Debug, PartialEq, Eq)]
pub struct UnsupportedHotkeyError {
    /// The key name that was requested.
    pub key: String,
}

impl KeyboardLayout {
    /// A layout holds the characters of every searched key code.
    pub open spec fn covers_all_key_codes(&self) -> bool {
        self.keys.len() > MAX_VIRTUAL_KEY_CODE
    }
}

/// The views of the four character strings of one key.
pub struct KeyCharsView {
    pub plain: Seq<char>,
    pub shifted: Seq<char>,
    pub command: Seq<char>,
    pub command_shifted: Seq<char>,
}

impl KeyLayoutChars {
    pub open spec fn chars_view(&self) -> KeyCharsView {
        KeyCharsView {
            plain: self.plain@,
            shifted: self.shifted@,
            command: self.command@,
            command_shifted: self.command_shifted@,
        }
    }
}

/// The name of a key that has a fixed name whatever the layout.
pub open spec fn special_key_name(code: u16) -> Option<Seq<char>> {
    match code {
        0x24 | 0x4c => Some("enter"@),
        0x30 => Some("tab"@),
        0x31 => Some("space"@),
        0x33 => Some("backspace"@),
        0x35 => Some("escape"@),
        0x40 => Some("f17"@),
        0x4f => Some("f18"@),
        0x50 => Some("f19"@),
        0x5a => Some("f20"@),
        0x60 => Some("f5"@),
        0x61 => Some("f6"@),
        0x62 => Some("f7"@),
        0x63 => Some("f3"@),
        0x64 => Some("f8"@),
        0x65 => Some("f9"@),
        0x67 => Some("f11"@),
        0x69 => Some("f13"@),
        0x6a => Some("f16"@),
        0x6b => Some("f14"@),
        0x6d => Some("f10"@),
        0x6f => Some("f12"@),
        0x71 => Some("f15"@),
        0x72 => Some("insert"@),
        0x73 => Some("home"@),
        0x74 => Some("pageup"@),
        0x75 => Some("delete"@),
        0x76 => Some("f4"@),
        0x77 => Some("end"@),
        0x78 => Some("f2"@),
        0x79 => Some("pagedown"@),
        0x7a => Some("f1"@),
        0x7b => Some("left"@),
        0x7c => Some("right"@),
        0x7d => Some("down"@),
        0x7e => Some("up"@),
        _ => None,
    }
}

/// The keys with a fixed name, by their macOS virtual key codes
/// (`kVK_Return` 0x24, `kVK_ANSI_KeypadEnter` 0x4c, `kVK_Tab` 0x30,
/// `kVK_Space` 0x31, `kVK_Delete` 0x33, `kVK_Escape` 0x35, the function keys
/// `kVK_F1` to `kVK_F20`, and the navigation keys); every other code has
/// none. Exactly the function and navigation keys drop the function
/// modifier.
pub proof fn law_special_key_codes(code: u16)
    ensures
        special_key_name(0x24u16) == Some("enter"@),
        special_key_name(0x4cu16) == Some("enter"@),
        special_key_name(0x30u16) == Some("tab"@),
        special_key_name(0x31u16) == Some("space"@),
        special_key_name(0x33u16) == Some("backspace"@),
        special_key_name(0x35u16) == Some("escape"@),
        special_key_name(0x40u16) == Some("f17"@),
        special_key_name(0x4fu16) == Some("f18"@),
        special_key_name(0x50u16) == Some("f19"@),
        special_key_name(0x5au16) == Some("f20"@),
        special_key_name(0x60u16) == Some("f5"@),
        special_key_name(0x61u16) == Some("f6"@),
        special_key_name(0x62u16) == Some("f7"@),
        special_key_name(0x63u16) == Some("f3"@),
        special_key_name(0x64u16) == Some("f8"@),
        special_key_name(0x65u16) == Some("f9"@),
        special_key_name(0x67u16) == Some("f11"@),
        special_key_name(0x69u16) == Some("f13"@),
        special_key_name(0x6au16) == Some("f16"@),
        special_key_name(0x6bu16) == Some("f14"@),
        special_key_name(0x6du16) == Some("f10"@),
        special_key_name(0x6fu16) == Some("f12"@),
        special_key_name(0x71u16) == Some("f15"@),
        special_key_name(0x72u16) == Some("insert"@),
        special_key_name(0x73u16) == Some("home"@),
        special_key_name(0x74u16) == Some("pageup"@),
        special_key_name(0x75u16) == Some("delete"@),
        special_key_name(0x76u16) == Some("f4"@),
        special_key_name(0x77u16) == Some("end"@),
        special_key_name(0x78u16) == Some("f2"@),
        special_key_name(0x79u16) == Some("pagedown"@),
        special_key_name(0x7au16) == Some("f1"@),
        special_key_name(0x7bu16) == Some("left"@),
        special_key_name(0x7cu16) == Some("right"@),
        special_key_name(0x7du16) == Some("down"@),
        special_key_name(0x7eu16) == Some("up"@),
        special_key_name(code) is Some == (code == 0x24 || code == 0x4c || code == 0x30 || code == 0x31 || code == 0x33 || code == 0x35 || code == 0x40 || code == 0x4f || code == 0x50 || code == 0x5a || code == 0x60 || code == 0x61 || code == 0x62 || code == 0x63 || code == 0x64 || code == 0x65 || code == 0x67 || code == 0x69 || code == 0x6a || code == 0x6b || code == 0x6d || code == 0x6f || code == 0x71 || code == 0x72 || code == 0x73 || code == 0x74 || code == 0x75 || code == 0x76 || code == 0x77 || code == 0x78 || code == 0x79 || code == 0x7a || code == 0x7b || code == 0x7c || code == 0x7d || code == 0x7e),
        suppresses_function_modifier(code) == (special_key_name(code) is Some && code != 0x24 && code
            != 0x4c && code != 0x30 && code != 0x31 && code != 0x33 && code != 0x35),
{
}

/// Whether the function modifier is dropped for a key because the key is
/// itself reached through the function layer on compact keyboards.
pub open spec fn suppresses_function_modifier(code: u16) -> bool {
    code == 0x40
        || code == 0x4f
        || code == 0x50
        || code == 0x5a
        || code == 0x60
        || code == 0x61
        || code == 0x62
        || code == 0x63
        || code == 0x64
        || code == 0x65
        || code == 0x67
        || code == 0x69
        || code == 0x6a
        || code == 0x6b
        || code == 0x6d
        || code == 0x6f
        || code == 0x71
        || code == 0x72
        || code == 0x73
        || code == 0x74
        || code == 0x75
        || code == 0x76
        || code == 0x77
        || code == 0x78
        || code == 0x79
        || code == 0x7a
        || code == 0x7b
        || code == 0x7c
        || code == 0x7d
        || code == 0x7e
}

/// The key name of a layout character that stands for a non-printable key.
pub open spec fn function_char_key_name(code: u16) -> Option<Seq<char>> {
    match code {
        0x20 => Some("space"@),
        0x9 => Some("tab"@),
        0xd | 0x3 => Some("enter"@),
        0x7f => Some("backspace"@),
        0x1b => Some("escape"@),
        0x19 => Some("tab"@),
        0xf700 => Some("up"@),
        0xf701 => Some("down"@),
        0xf702 => Some("left"@),
        0xf703 => Some("right"@),
        0xf72c => Some("pageup"@),
        0xf72d => Some("pagedown"@),
        0xf729 => Some("home"@),
        0xf72b => Some("end"@),
        0xf728 => Some("delete"@),
        0xf746 => Some("insert"@),
        0xf704 => Some("f1"@),
        0xf705 => Some("f2"@),
        0xf706 => Some("f3"@),
        0xf707 => Some("f4"@),
        0xf708 => Some("f5"@),
        0xf709 => Some("f6"@),
        0xf70a => Some("f7"@),
        0xf70b => Some("f8"@),
        0xf70c => Some("f9"@),
        0xf70d => Some("f10"@),
        0xf70e => Some("f11"@),
        0xf70f => Some("f12"@),
        0xf710 => Some("f13"@),
        0xf711 => Some("f14"@),
        0xf712 => Some("f15"@),
        0xf713 => Some("f16"@),
        0xf714 => Some("f17"@),
        0xf715 => Some("f18"@),
        0xf716 => Some("f19"@),
        0xf717 => Some("f20"@),
        0xf718 => Some("f21"@),
        0xf719 => Some("f22"@),
        0xf71a => Some("f23"@),
        0xf71b => Some("f24"@),
        0xf71c => Some("f25"@),
        0xf71d => Some("f26"@),
        0xf71e => Some("f27"@),
        0xf71f => Some("f28"@),
        0xf720 => Some("f29"@),
        0xf721 => Some("f30"@),
        0xf722 => Some("f31"@),
        0xf723 => Some("f32"@),
        0xf724 => Some("f33"@),
        0xf725 => Some("f34"@),
        0xf726 => Some("f35"@),
        _ => None,
    }
}

/// The function keys of the private-use area are numbered in order: the
/// character `0xf703 + n` names function key `n`, for `n` from 1 to 35.
pub proof fn law_function_key_chars(n: nat)
    requires
        1 <= n <= 35,
    ensures
        function_char_key_name((0xf703 + n) as u16) == Some(seq!['f'] + decimal_seq(n)),
{
    reveal_with_fuel(decimal_seq, 2);
    if n < 10 {
        assert(decimal_seq(n) == seq![digit_char(n)]);
    } else {
        assert(decimal_seq(n) == seq![digit_char(n / 10), digit_char(n % 10)]);
    }
    if n == 1 {
        reveal_strlit("f1");
    } else if n == 2 {
        reveal_strlit("f2");
    } else if n == 3 {
        reveal_strlit("f3");
    } else if n == 4 {
        reveal_strlit("f4");
    } else if n == 5 {
        reveal_strlit("f5");
    } else if n == 6 {
        reveal_strlit("f6");
    } else if n == 7 {
        reveal_strlit("f7");
    } else if n == 8 {
        reveal_strlit("f8");
    } else if n == 9 {
        reveal_strlit("f9");
    } else if n == 10 {
        reveal_strlit("f10");
    } else if n == 11 {
        reveal_strlit("f11");
    } else if n == 12 {
        reveal_strlit("f12");
    } else if n == 13 {
        reveal_strlit("f13");
    } else if n == 14 {
        reveal_strlit("f14");
    } else if n == 15 {
        reveal_strlit("f15");
    } else if n == 16 {
        reveal_strlit("f16");
    } else if n == 17 {
        reveal_strlit("f17");
    } else if n == 18 {
        reveal_strlit("f18");
    } else if n == 19 {
        reveal_strlit("f19");
    } else if n == 20 {
        reveal_strlit("f20");
    } else if n == 21 {
        reveal_strlit("f21");
    } else if n == 22 {
        reveal_strlit("f22");
    } else if n == 23 {
        reveal_strlit("f23");
    } else if n == 24 {
        reveal_strlit("f24");
    } else if n == 25 {
        reveal_strlit("f25");
    } else if n == 26 {
        reveal_strlit("f26");
    } else if n == 27 {
        reveal_strlit("f27");
    } else if n == 28 {
        reveal_strlit("f28");
    } else if n == 29 {
        reveal_strlit("f29");
    } else if n == 30 {
        reveal_strlit("f30");
    } else if n == 31 {
        reveal_strlit("f31");
    } else if n == 32 {
        reveal_strlit("f32");
    } else if n == 33 {
        reveal_strlit("f33");
    } else if n == 34 {
        reveal_strlit("f34");
    } else if n == 35 {
        reveal_strlit("f35");
    }
    assert(seq!['f'] + decimal_seq(n) =~= function_char_key_name((0xf703 + n) as u16).unwrap());
}

/// The key name and shift state derived from the layout characters of a key
/// that has neither a fixed name nor a non-printable character.
pub open spec fn layout_key(
    chars: KeyCharsView,
    command: bool,
    always_command: bool,
    shift: bool,
) -> (Seq<char>, bool) {
    let use_command = command || always_command;
    let ignoring = if use_command { chars.command } else { chars.plain };
    let with_shift = if use_command {
        if chars.command_shifted != chars.command {
            chars.command_shifted
        } else if ascii_upper_seq(chars.command) != chars.command {
            ascii_upper_seq(chars.command)
        } else {
            chars.shifted
        }
    } else {
        chars.shifted
    };
    if shift && all_ascii_lower(ignoring) {
        (ignoring, true)
    } else if shift {
        (with_shift, false)
    } else {
        (ignoring, false)
    }
}

/// The first character of the unmodified layout string, truncated to 16 bits.
pub open spec fn first_layout_char(plain: Seq<char>) -> Option<u16> {
    if plain.len() > 0 {
        Some(plain[0] as u16)
    } else {
        None
    }
}

/// The key name and shift state of a key code under the given modifiers.
pub open spec fn semantic_key(
    code: u16,
    modifiers: Modifiers,
    chars: KeyCharsView,
    always_command: bool,
) -> (Seq<char>, bool) {
    match special_key_name(code) {
        Some(name) => (name, modifiers.shift),
        None => match first_layout_char(chars.plain) {
            Some(c) => match function_char_key_name(c) {
                Some(name) => (name, modifiers.shift),
                None => layout_key(chars, modifiers.platform, always_command, modifiers.shift),
            },
            None => layout_key(chars, modifiers.platform, always_command, modifiers.shift),
        },
    }
}

/// The modifiers of the keystroke that a key code produces.
pub open spec fn semantic_modifiers(
    code: u16,
    modifiers: Modifiers,
    chars: KeyCharsView,
    always_command: bool,
) -> Modifiers {
    Modifiers {
        control: modifiers.control,
        alt: modifiers.alt,
        shift: semantic_key(code, modifiers, chars, always_command).1,
        platform: modifiers.platform,
        function: modifiers.function && !suppresses_function_modifier(code),
    }
}

/// The Carbon modifier mask of a set of modifiers.
pub open spec fn carbon_mask(m: Modifiers) -> u32 {
    ((if m.platform { CMD_KEY } else { 0 }) + (if m.control { CONTROL_KEY } else { 0 }) + (
    if m.alt { OPTION_KEY } else { 0 }) + (if m.shift { SHIFT_KEY } else { 0 }) + (if m.function {
        FN_KEY
    } else {
        0
    })) as u32
}

/// The given modifiers with the shift state replaced.
pub open spec fn with_shift(m: Modifiers, shift: bool) -> Modifiers {
    Modifiers { shift, ..m }
}

/// Whether pressing `code` with `modifiers` under the layout produces the
/// requested keystroke.
pub open spec fn key_produces(
    layout: &KeyboardLayout,
    code: u16,
    modifiers: Modifiers,
    desired: &Keystroke,
) -> bool {
    let chars = layout.keys@[code as int].chars_view();
    &&& semantic_modifiers(code, modifiers, chars, layout.always_use_command_layout)
        == desired.modifiers
    &&& semantic_key(code, modifiers, chars, layout.always_use_command_layout).0 == desired.key@
}

/// Whether some searched key code produces the keystroke when the shift
/// state is `shift`, at a code below `bound`.
pub open spec fn produced_below(
    layout: &KeyboardLayout,
    desired: &Keystroke,
    shift: bool,
    bound: int,
) -> bool {
    exists|c: u16|
        0 <= c < bound && #[trigger] key_produces(
            layout,
            c,
            with_shift(desired.modifiers, shift),
            desired,
        )
}

/// The shift states tried, in order: a keystroke that names shift is only
/// tried with shift held; otherwise without shift first, then with it.
pub open spec fn shift_candidates(desired: &Keystroke) -> Seq<bool> {
    if desired.modifiers.shift {
        seq![true]
    } else {
        seq![false, true]
    }
}

/// The name of a key that has a fixed name whatever the layout.
pub fn special_key_for_key_code(code: u16) -> (r: Option<&'static str>)
    ensures
        r is Some <==> special_key_name(code) is Some,
        r matches Some(s) ==> special_key_name(code) == Some(s@),
{
    match code {
        0x24 | 0x4c => Some("enter"),
        0x30 => Some("tab"),
        0x31 => Some("space"),
        0x33 => Some("backspace"),
        0x35 => Some("escape"),
        0x40 => Some("f17"),
        0x4f => Some("f18"),
        0x50 => Some("f19"),
        0x5a => Some("f20"),
        0x60 => Some("f5"),
        0x61 => Some("f6"),
        0x62 => Some("f7"),
        0x63 => Some("f3"),
        0x64 => Some("f8"),
        0x65 => Some("f9"),
        0x67 => Some("f11"),
        0x69 => Some("f13"),
        0x6a => Some("f16"),
        0x6b => Some("f14"),
        0x6d => Some("f10"),
        0x6f => Some("f12"),
        0x71 => Some("f15"),
        0x72 => Some("insert"),
        0x73 => Some("home"),
        0x74 => Some("pageup"),
        0x75 => Some("delete"),
        0x76 => Some("f4"),
        0x77 => Some("end"),
        0x78 => Some("f2"),
        0x79 => Some("pagedown"),
        0x7a => Some("f1"),
        0x7b => Some("left"),
        0x7c => Some("right"),
        0x7d => Some("down"),
        0x7e => Some("up"),
        _ => None,
    }
}

/// Whether the function modifier is dropped for the key code.
pub fn suppress_function_modifier_for_key_code(code: u16) -> (r: bool)
    ensures
        r == suppresses_function_modifier(code),
{
    match code {
        0x40 | 0x4f | 0x50 | 0x5a | 0x60 | 0x61 | 0x62 | 0x63 | 0x64 | 0x65 | 0x67 | 0x69 | 0x6a | 0x6b | 0x6d | 0x6f | 0x71 | 0x72 | 0x73 | 0x74 | 0x75 | 0x76 | 0x77 | 0x78 | 0x79 | 0x7a | 0x7b | 0x7c | 0x7d | 0x7e => true,
        _ => false,
    }
}

/// The key name of a layout character that stands for a non-printable key.
fn function_char_key(code: u16) -> (r: Option<&'static str>)
    ensures
        r is Some <==> function_char_key_name(code) is Some,
        r matches Some(s) ==> function_char_key_name(code) == Some(s@),
{
    match code {
        0x20 => Some("space"),
        0x9 => Some("tab"),
        0xd | 0x3 => Some("enter"),
        0x7f => Some("backspace"),
        0x1b => Some("escape"),
        0x19 => Some("tab"),
        0xf700 => Some("up"),
        0xf701 => Some("down"),
        0xf702 => Some("left"),
        0xf703 => Some("right"),
        0xf72c => Some("pageup"),
        0xf72d => Some("pagedown"),
        0xf729 => Some("home"),
        0xf72b => Some("end"),
        0xf728 => Some("delete"),
        0xf746 => Some("insert"),
        0xf704 => Some("f1"),
        0xf705 => Some("f2"),
        0xf706 => Some("f3"),
        0xf707 => Some("f4"),
        0xf708 => Some("f5"),
        0xf709 => Some("f6"),
        0xf70a => Some("f7"),
        0xf70b => Some("f8"),
        0xf70c => Some("f9"),
        0xf70d => Some("f10"),
        0xf70e => Some("f11"),
        0xf70f => Some("f12"),
        0xf710 => Some("f13"),
        0xf711 => Some("f14"),
        0xf712 => Some("f15"),
        0xf713 => Some("f16"),
        0xf714 => Some("f17"),
        0xf715 => Some("f18"),
        0xf716 => Some("f19"),
        0xf717 => Some("f20"),
        0xf718 => Some("f21"),
        0xf719 => Some("f22"),
        0xf71a => Some("f23"),
        0xf71b => Some("f24"),
        0xf71c => Some("f25"),
        0xf71d => Some("f26"),
        0xf71e => Some("f27"),
        0xf71f => Some("f28"),
        0xf720 => Some("f29"),
        0xf721 => Some("f30"),
        0xf722 => Some("f31"),
        0xf723 => Some("f32"),
        0xf724 => Some("f33"),
        0xf725 => Some("f34"),
        0xf726 => Some("f35"),
        _ => None,
    }
}

/// The Carbon modifier mask of a set of modifiers.
pub fn carbon_modifiers(modifiers: Modifiers) -> (r: u32)
    ensures
        r == carbon_mask(modifiers),
        r == ({
            let m = modifiers;
            ((if m.platform { 0x100u32 } else { 0u32 }) | (if m.shift { 0x200u32 } else { 0u32 }) | (if m.alt {
            0x800u32
        } else {
            0u32
        }) | (if m.control { 0x1000u32 } else { 0u32 }) | (if m.function { 0x20000u32 } else { 0u32 }))
        }),
{
    let p = modifiers.platform;
    let c = modifiers.control;
    let a = modifiers.alt;
    let s = modifiers.shift;
    let f = modifiers.function;
    let mut result: u32 = 0;
    if p {
        result = result | CMD_KEY;
    }
    if c {
        result = result | CONTROL_KEY;
    }
    if a {
        result = result | OPTION_KEY;
    }
    if s {
        result = result | SHIFT_KEY;
    }
    if f {
        result = result | FN_KEY;
    }
    proof {
        lemma_carbon_bits(p, c, a, s, f);
        law_carbon_mask_bits(modifiers);
    }
    result
}

/// The Carbon mask of a set of modifiers has bit 8 (`cmdKey`) exactly for
/// the platform key, bit 9 (`shiftKey`) for shift, bit 11 (`optionKey`)
/// for alt, bit 12 (`controlKey`) for control and bit 17 (`kEventKeyModifierFnMask`)
/// for the function key, and no other bit.
pub proof fn law_carbon_mask_bits(m: Modifiers)
    ensures
        carbon_mask(m) == ((if m.platform { 0x100u32 } else { 0u32 }) | (if m.shift { 0x200u32 } else { 0u32 }) | (if m.alt {
            0x800u32
        } else {
            0u32
        }) | (if m.control { 0x1000u32 } else { 0u32 }) | (if m.function { 0x20000u32 } else { 0u32 })),
        carbon_mask(m) & 0x100u32 != 0 <==> m.platform,
        carbon_mask(m) & 0x200u32 != 0 <==> m.shift,
        carbon_mask(m) & 0x800u32 != 0 <==> m.alt,
        carbon_mask(m) & 0x1000u32 != 0 <==> m.control,
        carbon_mask(m) & 0x20000u32 != 0 <==> m.function,
        carbon_mask(m) & !0x21b00u32 == 0,
{
    let p = m.platform;
    let c = m.control;
    let a = m.alt;
    let s = m.shift;
    let f = m.function;
    let x: u32 = ((if p { 0x100u32 } else { 0u32 }) + (if c { 0x1000u32 } else { 0u32 }) + (if a {
        0x800u32
    } else {
        0u32
    }) + (if s { 0x200u32 } else { 0u32 }) + (if f { 0x20000u32 } else { 0u32 })) as u32;
    assert(carbon_mask(m) == x);
    assert({
        let y: u32 = (if p { 0x100u32 } else { 0u32 }) | (if s { 0x200u32 } else { 0u32 }) | (if a {
            0x800u32
        } else {
            0u32
        }) | (if c { 0x1000u32 } else { 0u32 }) | (if f { 0x20000u32 } else { 0u32 });
        &&& x == y
        &&& (x & 0x100u32 != 0 <==> p)
        &&& (x & 0x200u32 != 0 <==> s)
        &&& (x & 0x800u32 != 0 <==> a)
        &&& (x & 0x1000u32 != 0 <==> c)
        &&& (x & 0x20000u32 != 0 <==> f)
        &&& x & !0x21b00u32 == 0
    }) by (bit_vector)
        requires
            x == ((if p { 0x100u32 } else { 0u32 }) + (if c { 0x1000u32 } else { 0u32 }) + (if a {
                0x800u32
            } else {
                0u32
            }) + (if s { 0x200u32 } else { 0u32 }) + (if f { 0x20000u32 } else { 0u32 })) as u32,
    ;
}

proof fn lemma_carbon_bits(p: bool, c: bool, a: bool, s: bool, f: bool)
    ensures
        ({
            let r0: u32 = 0;
            let r1: u32 = if p { r0 | 0x100u32 } else { r0 };
            let r2: u32 = if c { r1 | 0x1000u32 } else { r1 };
            let r3: u32 = if a { r2 | 0x800u32 } else { r2 };
            let r4: u32 = if s { r3 | 0x200u32 } else { r3 };
            let r5: u32 = if f { r4 | 0x20000u32 } else { r4 };
            r5 == ((if p { 0x100u32 } else { 0u32 }) + (if c { 0x1000u32 } else { 0u32 }) + (if a {
                0x800u32
            } else {
                0u32
            }) + (if s { 0x200u32 } else { 0u32 }) + (if f { 0x20000u32 } else { 0u32 })) as u32
        }),
{
    assert(({
        let r0: u32 = 0;
        let r1: u32 = if p { r0 | 0x100u32 } else { r0 };
        let r2: u32 = if c { r1 | 0x1000u32 } else { r1 };
        let r3: u32 = if a { r2 | 0x800u32 } else { r2 };
        let r4: u32 = if s { r3 | 0x200u32 } else { r3 };
        let r5: u32 = if f { r4 | 0x20000u32 } else { r4 };
        r5 == ((if p { 0x100u32 } else { 0u32 }) + (if c { 0x1000u32 } else { 0u32 }) + (if a {
            0x800u32
        } else {
            0u32
        }) + (if s { 0x200u32 } else { 0u32 }) + (if f { 0x20000u32 } else { 0u32 })) as u32
    })) by (bit_vector);
}

/// Whether two keystrokes agree on their modifiers and key name.
pub fn hotkeys_match(candidate: &Keystroke, desired: &Keystroke) -> (r: bool)
    ensures
        r == (candidate.modifiers == desired.modifiers && candidate.key@ == desired.key@),
{
    candidate.modifiers == desired.modifiers && candidate.key == desired.key
}

/// The key name and shift state derived from a key's layout characters.
fn layout_key_name(chars: &KeyLayoutChars, command: bool, always_command: bool, shift: bool) -> (r:
    (String, bool))
    ensures
        (r.0@, r.1) == layout_key(chars.chars_view(), command, always_command, shift),
{
    let mut ignoring = chars.plain.clone();
    let mut with_shift = chars.shifted.clone();
    if command || always_command {
        let with_cmd = chars.command.clone();
        let with_both = chars.command_shifted.clone();
        if with_both != with_cmd {
            with_shift = with_both;
        } else {
            let upper = str_ascii_upper(with_cmd.as_str());
            if upper != with_cmd {
                with_shift = upper;
            }
        }
        ignoring = with_cmd;
    }
    if shift && str_all_ascii_lower(ignoring.as_str()) {
        (ignoring, true)
    } else if shift {
        (with_shift, false)
    } else {
        (ignoring, false)
    }
}

/// The keystroke that pressing a key code with the given modifiers stands
/// for under the layout characters of that key.
pub fn semantic_hotkey_for_key_code(
    key_code: u16,
    actual_modifiers: Modifiers,
    chars: &KeyLayoutChars,
    always_use_command_layout: bool,
) -> (r: Keystroke)
    ensures
        r.key@ == semantic_key(
            key_code,
            actual_modifiers,
            chars.chars_view(),
            always_use_command_layout,
        ).0,
        r.modifiers == semantic_modifiers(
            key_code,
            actual_modifiers,
            chars.chars_view(),
            always_use_command_layout,
        ),
        r.key_char is None,
{
    let special_key = special_key_for_key_code(key_code);
    let first_char: Option<u16> = if special_key.is_none() {
        let plain = chars.plain.as_str();
        if plain.unicode_len() > 0 {
            let ch = plain.get_char(0);
            Some(ch as u16)
        } else {
            None
        }
    } else {
        None
    };
    let control = actual_modifiers.control;
    let alt = actual_modifiers.alt;
    let command = actual_modifiers.platform;
    let function = actual_modifiers.function && !suppress_function_modifier_for_key_code(key_code);
    let (key, shift) = match special_key {
        Some(name) => (owned(name), actual_modifiers.shift),
        None => {
            let named = match first_char {
                Some(c) => function_char_key(c),
                None => None,
            };
            match named {
                Some(name) => (owned(name), actual_modifiers.shift),
                None => layout_key_name(
                    chars,
                    command,
                    always_use_command_layout,
                    actual_modifiers.shift,
                ),
            }
        },
    };
    Keystroke {
        modifiers: Modifiers { control, alt, shift, platform: command, function },
        key,
        key_char: None,
    }
}

/// Finds the native hotkey that produces the keystroke under the layout.
///
/// Key codes are searched in increasing order; a keystroke without shift is
/// first searched without shift and then with shift held, so that keys
/// whose shifted character is requested are found too. The first key code
/// that produces the keystroke is returned, with the Carbon mask of the
/// modifiers it was found with.
pub fn hotkey_to_native(keystroke: &Keystroke, layout: &KeyboardLayout) -> (r: Result<
    NativeHotkey,
    UnsupportedHotkeyError,
>)
    requires
        layout.covers_all_key_codes(),
    ensures
        match r {
            Ok(h) => h.key_code <= MAX_VIRTUAL_KEY_CODE && exists|i: int|
                0 <= i < shift_candidates(keystroke).len() && {
                    let shift = #[trigger] shift_candidates(keystroke)[i];
                    let c = h.key_code as u16;
                    &&& key_produces(layout, c, with_shift(keystroke.modifiers, shift), keystroke)
                    &&& !produced_below(layout, keystroke, shift, c as int)
                    &&& forall|j: int|
                        0 <= j < i ==> !produced_below(
                            layout,
                            keystroke,
                            #[trigger] shift_candidates(keystroke)[j],
                            MAX_VIRTUAL_KEY_CODE + 1,
                        )
                    &&& h.modifiers == carbon_mask(with_shift(keystroke.modifiers, shift))
                },
            Err(e) => e.key@ == keystroke.key@ && forall|i: int|
                0 <= i < shift_candidates(keystroke).len() ==> !produced_below(
                    layout,
                    keystroke,
                    #[trigger] shift_candidates(keystroke)[i],
                    MAX_VIRTUAL_KEY_CODE + 1,
                ),
        },
{
    let candidates: Vec<bool> = if keystroke.modifiers.shift {
        vec![true]
    } else {
        vec![false, true]
    };
    proof {
        assert(candidates@ =~= shift_candidates(keystroke));
    }
    let mut ci: usize = 0;
    while ci < candidates.len()
        invariant
            layout.covers_all_key_codes(),
            candidates@ == shift_candidates(keystroke),
            ci <= candidates.len(),
            forall|j: int|
                0 <= j < ci ==> !produced_below(
                    layout,
                    keystroke,
                    #[trigger] shift_candidates(keystroke)[j],
                    MAX_VIRTUAL_KEY_CODE + 1,
                ),
        decreases candidates.len() - ci,
    {
        let actual_shift = candidates[ci];
        let actual_modifiers = Modifiers { shift: actual_shift, ..keystroke.modifiers };
        let mut key_code: u16 = 0;
        while key_code <= MAX_VIRTUAL_KEY_CODE
            invariant
                layout.covers_all_key_codes(),
                candidates@ == shift_candidates(keystroke),
                ci < candidates.len(),
                actual_shift == shift_candidates(keystroke)[ci as int],
                actual_modifiers == with_shift(keystroke.modifiers, actual_shift),
                key_code <= MAX_VIRTUAL_KEY_CODE + 1,
                !produced_below(layout, keystroke, actual_shift, key_code as int),
                forall|j: int|
                    0 <= j < ci ==> !produced_below(
                        layout,
                        keystroke,
                        #[trigger] shift_candidates(keystroke)[j],
                        MAX_VIRTUAL_KEY_CODE + 1,
                    ),
            decreases MAX_VIRTUAL_KEY_CODE + 1 - key_code,
        {
            let candidate = semantic_hotkey_for_key_code(
                key_code,
                actual_modifiers,
                &layout.keys[key_code as usize],
                layout.always_use_command_layout,
            );
            if hotkeys_match(&candidate, keystroke) {
                let h = NativeHotkey {
                    key_code: key_code as u32,
                    modifiers: carbon_modifiers(actual_modifiers),
                };
                proof {
                    assert(key_produces(layout, key_code, actual_modifiers, keystroke));
                    assert(shift_candidates(keystroke)[ci as int] == actual_shift);
                    assert(h.key_code as u16 == key_code);
                }
                return Ok(h);
            }
            proof {
                assert(!key_produces(layout, key_code, actual_modifiers, keystroke));
                assert forall|c: u16| 0 <= c < key_code + 1 implies !#[trigger] key_produces(
                    layout,
                    c,
                    with_shift(keystroke.modifiers, actual_shift),
                    keystroke,
                ) by {
                    if c < key_code {
                        assert(!produced_below(layout, keystroke, actual_shift, key_code as int));
                    }
                }
            }
            key_code = key_code + 1;
        }
        ci = ci + 1;
    }
    Err(UnsupportedHotkeyError { key: keystroke.key.clone() })
}

/// The Carbon modifier bits are `cmdKey` 0x100, `shiftKey` 0x200, `optionKey` 0x800, `controlKey` 0x1000 and the function mask 0x20000; key codes are searched up to 0x7e.
pub proof fn law_hotkey_constants()
    ensures
        CMD_KEY == 0x100,
        SHIFT_KEY == 0x200,
        OPTION_KEY == 0x800,
        CONTROL_KEY == 0x1000,
        FN_KEY == 0x20000,
        MAX_VIRTUAL_KEY_CODE == 0x7e,
{
}

} // verus!

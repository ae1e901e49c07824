//! The id under which the tray icon is registered with a
//! StatusNotifierItem host: derived from the name of the running
//! executable, because some hosts hide items with an empty id.

use vstd::prelude::*;
use crate::text::owned;

verus! {

/// The id used when no usable executable name is found.
pub const DEFAULT_STATUS_NOTIFIER_ID: &'static str = "gpui-tray";

/// The final component of a path (`Path::file_name`).
pub uninterp spec fn file_name_of(path: Seq<char>) -> Option<Seq<char>>;

/// The stem of a file name, as `Path::file_stem` documents it: the whole
/// name when it holds no `.` after its first character, else the part
/// before its last `.`.
pub open spec fn stem_of_name(name: Seq<char>) -> Seq<char> {
    if exists|i: int| 0 < i < name.len() && name[i] == '.' {
        let i = choose|i: int|
            0 < i < name.len() && name[i] == '.' && forall|j: int| i < j < name.len() ==> name[j] != '.';
        name.subrange(0, i)
    } else {
        name
    }
}

/// The final component of a path without its extension (`Path::file_stem`):
/// the stem of its file name, when it has one.
pub open spec fn file_stem_of(path: Seq<char>) -> Option<Seq<char>> {
    match file_name_of(path) {
        Some(name) => Some(stem_of_name(name)),
        None => None,
    }
}

/// Whether a character has the Unicode `White_Space` property, as
/// `char::is_whitespace` tests it: the controls tab to carriage return and
/// next line, the space and no-break space, the Ogham space mark, the
/// spaces from en quad to hair space, the line and paragraph separators,
/// the narrow no-break space, the medium mathematical space and the
/// ideographic space.
pub open spec fn is_white_space(c: char) -> bool {
    let u = c as u32;
    ||| 0x09 <= u <= 0x0d
    ||| u == 0x20
    ||| u == 0x85
    ||| u == 0xa0
    ||| u == 0x1680
    ||| 0x2000 <= u <= 0x200a
    ||| u == 0x2028
    ||| u == 0x2029
    ||| u == 0x202f
    ||| u == 0x205f
    ||| u == 0x3000
}

/// The final component of a path (`Path::file_name`), converted to a
/// string; `None` when the path has no final component, such as `/` or a
/// path ending in `..`.
#[verifier::external_body]
fn path_file_name(path: &str) -> (r: Option<String>)
    ensures
        r matches Some(s) ==> file_name_of(path@) == Some(s@),
        r is None <==> file_name_of(path@) is None,
{
    match std::path::Path::new(path).file_name() {
        Some(name) => Some(name.to_string_lossy().into_owned()),
        None => None,
    }
}

/// The final component of a path without its extension (`Path::file_stem`),
/// converted to a string: as documented, `None` exactly when the path has no
/// file name, else the stem of the file name.
#[verifier::external_body]
fn path_file_stem(path: &str) -> (r: Option<String>)
    ensures
        r matches Some(s) ==> file_stem_of(path@) == Some(s@),
        r is None <==> file_name_of(path@) is None,
{
    match std::path::Path::new(path).file_stem() {
        Some(stem) => Some(stem.to_string_lossy().into_owned()),
        None => None,
    }
}

/// Whether a character has the Unicode `White_Space` property.
pub fn char_is_whitespace(c: char) -> (r: bool)
    ensures
        r == is_white_space(c),
{
    let u = c as u32;
    (0x09 <= u && u <= 0x0d) || u == 0x20 || u == 0x85 || u == 0xa0 || u == 0x1680 || (0x2000 <= u
        && u <= 0x200a) || u == 0x2028 || u == 0x2029 || u == 0x202f || u == 0x205f || u == 0x3000
}

/// `t` is `s` with its leading and trailing white space removed.
pub open spec fn is_trimmed_of(s: Seq<char>, t: Seq<char>) -> bool {
    exists|a: int, b: int|
        0 <= a <= b <= s.len() && t == s.subrange(a, b) && (forall|k: int|
            0 <= k < a ==> is_white_space(#[trigger] s[k])) && (forall|k: int|
            b <= k < s.len() ==> is_white_space(#[trigger] s[k])) && (a < b ==> !is_white_space(
            s[a],
        ) && !is_white_space(s[b - 1]))
}

/// The string without its leading and trailing white space (`str::trim`).
pub fn trim(s: &str) -> (r: String)
    ensures
        is_trimmed_of(s@, r@),
{
    let n = s.unicode_len();
    let mut a: usize = 0;
    while a < n && char_is_whitespace(s.get_char(a))
        invariant
            n == s@.len(),
            a <= n,
            forall|k: int| 0 <= k < a ==> is_white_space(#[trigger] s@[k]),
        decreases n - a,
    {
        a = a + 1;
    }
    let mut b: usize = n;
    while b > a && char_is_whitespace(s.get_char(b - 1))
        invariant
            n == s@.len(),
            a <= b <= n,
            a < n ==> !is_white_space(s@[a as int]),
            forall|k: int| 0 <= k < a ==> is_white_space(#[trigger] s@[k]),
            forall|k: int| b <= k < n ==> is_white_space(#[trigger] s@[k]),
        decreases b,
    {
        b = b - 1;
    }
    let t = s.substring_char(a, b);
    let r = owned(t);
    proof {
        assert(r@ == s@.subrange(a as int, b as int));
        if a < b {
            assert(!is_white_space(s@[b - 1]));
        }
        assert(is_trimmed_of(s@, r@));
    }
    r
}

/// The status notifier id derived from a path: the file stem, or failing
/// that the file name, trimmed of white space; `None` when that leaves
/// nothing.
pub open spec fn status_notifier_id_of(path: Seq<char>) -> Option<Seq<char>> {
    let name = match file_stem_of(path) {
        Some(stem) => Some(stem),
        None => file_name_of(path),
    };
    match name {
        Some(n) => {
            let t = choose|t: Seq<char>| is_trimmed_of(n, t);
            if t.len() > 0 {
                Some(t)
            } else {
                None
            }
        },
        None => None,
    }
}

/// Derives the status notifier id from the executable's path: its file
/// stem, or failing that its file name, trimmed; `None` when no non-empty
/// name is left.
pub fn derive_status_notifier_id_from_path(path: &str) -> (r: Option<String>)
    ensures
        r is Some <==> status_notifier_id_of(path@) is Some,
        r matches Some(s) ==> {
            let name = match file_stem_of(path@) {
                Some(stem) => stem,
                None => file_name_of(path@)->0,
            };
            &&& is_trimmed_of(name, s@)
            &&& s@.len() > 0
        },
{
    let name = match path_file_stem(path) {
        Some(stem) => Some(stem),
        None => path_file_name(path),
    };
    match name {
        Some(n) => {
            let t = trim(n.as_str());
            proof {
                lemma_trim_unique(n@, t@, choose|u: Seq<char>| is_trimmed_of(n@, u));
            }
            if t.unicode_len() > 0 {
                Some(t)
            } else {
                None
            }
        },
        None => None,
    }
}

/// The id the tray registers with: derived from the executable's path when
/// it is known and gives a name, else [`DEFAULT_STATUS_NOTIFIER_ID`].
pub fn default_status_notifier_id(current_exe: Option<&str>) -> (r: String)
    ensures
        r@ == match current_exe {
            Some(p) => match status_notifier_id_of(p@) {
                Some(id) => id,
                None => DEFAULT_STATUS_NOTIFIER_ID@,
            },
            None => DEFAULT_STATUS_NOTIFIER_ID@,
        },
{
    let derived = match current_exe {
        Some(path) => derive_status_notifier_id_from_path(path),
        None => None,
    };
    match derived {
        Some(id) => {
            proof {
                let p = current_exe->0;
                let name = match file_stem_of(p@) {
                    Some(stem) => stem,
                    None => file_name_of(p@)->0,
                };
                lemma_trim_unique(name, id@, choose|u: Seq<char>| is_trimmed_of(name, u));
            }
            id
        },
        None => owned(DEFAULT_STATUS_NOTIFIER_ID),
    }
}

/// A string has exactly one trimmed form.
pub proof fn lemma_trim_unique(s: Seq<char>, t1: Seq<char>, t2: Seq<char>)
    requires
        is_trimmed_of(s, t1),
    ensures
        is_trimmed_of(s, t2) ==> t1 == t2,
{
    if is_trimmed_of(s, t2) {
        let (a1, b1) = choose|a: int, b: int|
            0 <= a <= b <= s.len() && t1 == s.subrange(a, b) && (forall|k: int|
                0 <= k < a ==> is_white_space(#[trigger] s[k])) && (forall|k: int|
                b <= k < s.len() ==> is_white_space(#[trigger] s[k])) && (a < b ==> !is_white_space(
                s[a],
            ) && !is_white_space(s[b - 1]));
        let (a2, b2) = choose|a: int, b: int|
            0 <= a <= b <= s.len() && t2 == s.subrange(a, b) && (forall|k: int|
                0 <= k < a ==> is_white_space(#[trigger] s[k])) && (forall|k: int|
                b <= k < s.len() ==> is_white_space(#[trigger] s[k])) && (a < b ==> !is_white_space(
                s[a],
            ) && !is_white_space(s[b - 1]));
        if a1 < b1 && a2 < b2 {
            assert(a1 == a2) by {
                if a1 < a2 {
                    assert(is_white_space(s[a1]));
                }
                if a2 < a1 {
                    assert(is_white_space(s[a2]));
                }
            }
            assert(b1 == b2) by {
                if b1 < b2 {
                    assert(is_white_space(s[b2 - 1]));
                }
                if b2 < b1 {
                    assert(is_white_space(s[b1 - 1]));
                }
            }
        } else if a1 < b1 {
            assert(is_white_space(s[a1]));
        } else if a2 < b2 {
            assert(is_white_space(s[a2]));
        }
        assert(t1 =~= t2);
    }
}

/// The tray falls back to the id `gpui-tray`.
pub proof fn law_status_notifier_constants()
    ensures
        DEFAULT_STATUS_NOTIFIER_ID@ == "gpui-tray"@,
{
}

} // verus!

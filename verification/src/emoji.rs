//! Emoji handling of the text and SVG renderers: which characters are
//! presented as emoji by default, and which fonts are known emoji fonts.

use vstd::prelude::*;
use crate::text::{owned, string_push};

verus! {

/// The pattern of characters with the Unicode `Emoji_Presentation` property.
pub const EMOJI_PRESENTATION_PATTERN: &'static str = "\\p{Emoji_Presentation}";

/// The PostScript name of the one font known to be an emoji font.
pub const KNOWN_EMOJI_FONT: &'static str = "NotoColorEmoji";

/// Whether the regular expression `pattern` matches somewhere in `text`.
pub uninterp spec fn regex_finds(pattern: Seq<char>, text: Seq<char>) -> bool;

/// Whether `pattern` is a valid regular expression.
pub uninterp spec fn regex_compiles(pattern: Seq<char>) -> bool;

/// Compiles `pattern` (`regex::Regex::new`) and tests whether it matches
/// somewhere in `text` (`Regex::is_match`); `None` when the pattern does
/// not compile.
#[verifier::external_body]
fn regex_is_match(pattern: &str, text: &str) -> (r: Option<bool>)
    ensures
        r is Some <==> regex_compiles(pattern@),
        r matches Some(b) ==> b == regex_finds(pattern@, text@),
{
    match regex::Regex::new(pattern) {
        Ok(re) => Some(re.is_match(text)),
        Err(_) => None,
    }
}

/// Whether a character is presented as an emoji by default (it has the
/// Unicode `Emoji_Presentation` property). Characters such as `©` or `♥`,
/// which need a variation selector to be shown as emoji, are not.
pub fn is_emoji_presentation(ch: char) -> (r: bool)
    ensures
        regex_compiles(EMOJI_PRESENTATION_PATTERN@) ==> r == regex_finds(
            EMOJI_PRESENTATION_PATTERN@,
            seq![ch],
        ),
        !regex_compiles(EMOJI_PRESENTATION_PATTERN@) ==> !r,
{
    let mut text = String::new();
    string_push(&mut text, ch);
    proof {
        assert(text@ =~= seq![ch]);
    }
    match regex_is_match(EMOJI_PRESENTATION_PATTERN, text.as_str()) {
        Some(found) => found,
        None => false,
    }
}

/// Whether a font, by its PostScript name, is a known colour emoji font.
pub fn check_is_known_emoji_font(postscript_name: &str) -> (r: bool)
    ensures
        r == (postscript_name@ == KNOWN_EMOJI_FONT@),
{
    let known = owned(KNOWN_EMOJI_FONT);
    let name = owned(postscript_name);
    name == known
}

/// What a font database answers for one candidate family: the face that
/// matches the family at regular weight, if any, and whether that face has
/// a glyph for the character being drawn.
#[derive(Clone, Copy, Debug, PartialEq, Eq, Structural)]
pub struct EmojiFontCandidate {
    pub face: Option<u32>,
    pub has_char: bool,
}

/// Whether a candidate can draw the character: it has a face, not among the
/// faces already tried, with a glyph for the character.
pub open spec fn usable_candidate(c: EmojiFontCandidate, tried: Seq<u32>) -> bool {
    c.face matches Some(id) && !tried.contains(id) && c.has_char
}

/// The emoji font for a character: the face of the first candidate family,
/// in order, that can draw it.
pub fn select_emoji_font(tried: &Vec<u32>, candidates: &Vec<EmojiFontCandidate>) -> (r: Option<u32>)
    ensures
        r is None <==> forall|k: int| 0 <= k < candidates@.len() ==> !usable_candidate(#[trigger] candidates@[k], tried@),
        r matches Some(id) ==> exists|k: int|
            0 <= k < candidates@.len() && #[trigger] usable_candidate(candidates@[k], tried@)
                && candidates@[k].face == Some(id) && forall|j: int|
                0 <= j < k ==> !usable_candidate(#[trigger] candidates@[j], tried@),
{
    let mut k: usize = 0;
    while k < candidates.len()
        invariant
            k <= candidates@.len(),
            forall|j: int| 0 <= j < k ==> !usable_candidate(#[trigger] candidates@[j], tried@),
        decreases candidates@.len() - k,
    {
        let candidate = candidates[k];
        match candidate.face {
            Some(id) => {
                let mut seen = false;
                let mut t: usize = 0;
                while t < tried.len()
                    invariant
                        t <= tried@.len(),
                        seen <==> exists|u: int| 0 <= u < t && tried@[u] == id,
                    decreases tried@.len() - t,
                {
                    if tried[t] == id {
                        seen = true;
                    }
                    t = t + 1;
                }
                proof {
                    assert(seen <==> tried@.contains(id));
                }
                if !seen && candidate.has_char {
                    proof {
                        assert(usable_candidate(candidates@[k as int], tried@));
                    }
                    return Some(id);
                }
            },
            None => {},
        }
        k = k + 1;
    }
    None
}

/// Emoji presentation is matched by the `Emoji_Presentation` property, and Noto Color Emoji is the known colour emoji font.
pub proof fn law_emoji_constants()
    ensures
        EMOJI_PRESENTATION_PATTERN@ == "\\p{Emoji_Presentation}"@,
        KNOWN_EMOJI_FONT@ == "NotoColorEmoji"@,
{
}

} // verus!

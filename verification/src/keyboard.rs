//! Key-token classification: the closed sets of canonical token spellings a
//! mapping string may use, and the LED palette.
//!
//! A token is classified after canonicalization (first character upper-cased,
//! remainder unchanged) by case-sensitive comparison against these canonical
//! spellings. The four categories are checked in a fixed order — modifier,
//! media key, well-known key, mouse action — and the first match wins; the
//! sets are disjoint, so the order only decides where a truly ambiguous name
//! would land.

use vstd::prelude::*;
use crate::text::str_eq;

verus! {

/// The fixed LED color palette.
#[derive(Clone, Copy, Debug, PartialEq, Eq, Structural)]
pub enum LedColor {
    Red,
    Orange,
    Yellow,
    Green,
    Cyan,
    Blue,
    Purple,
}

/// The four disjoint categories a recognized key token can fall in.
#[derive(Clone, Copy, Debug, PartialEq, Eq, Structural)]
pub enum KeyCategory {
    /// A modifier such as ctrl or shift; every token of a compound action but
    /// the last must be one.
    Modifier,
    /// A named media, volume or brightness control.
    Media,
    /// A letter, digit, function key or named well-known key.
    Regular,
    /// A mouse click or wheel motion.
    Mouse,
}

/// The canonical modifier spellings.
pub open spec fn is_modifier_name(s: Seq<char>) -> bool {
    ||| s == "Ctrl"@
    ||| s == "Shift"@
    ||| s == "Alt"@
    ||| s == "Win"@
    ||| s == "Rctrl"@
    ||| s == "Rshift"@
    ||| s == "Ralt"@
    ||| s == "Rwin"@
}

/// The canonical media-key spellings.
pub open spec fn is_media_name(s: Seq<char>) -> bool {
    ||| s == "Play"@
    ||| s == "Stop"@
    ||| s == "Next"@
    ||| s == "Prev"@
    ||| s == "Previous"@
    ||| s == "Mute"@
    ||| s == "Volup"@
    ||| s == "Voldown"@
    ||| s == "Volumeup"@
    ||| s == "Volumedown"@
    ||| s == "Brightnessup"@
    ||| s == "Brightnessdown"@
}

/// The media keys the single-layer device family supports; every other media
/// key is rejected for that family.
pub open spec fn is_whitelisted_media_name(s: Seq<char>) -> bool {
    ||| s == "Play"@
    ||| s == "Previous"@
    ||| s == "Next"@
    ||| s == "Mute"@
    ||| s == "Volumeup"@
    ||| s == "Volumedown"@
}

/// A single canonical letter A–Z or digit 0–9.
pub open spec fn is_letter_or_digit_name(s: Seq<char>) -> bool {
    s.len() == 1 && (('A' <= s[0] && s[0] <= 'Z') || ('0' <= s[0] && s[0] <= '9'))
}

/// A canonical function-key name F1 through F24, written without leading
/// zeros.
pub open spec fn is_function_key_name(s: Seq<char>) -> bool {
    ||| (s.len() == 2 && s[0] == 'F' && '1' <= s[1] && s[1] <= '9')
    ||| (s.len() == 3 && s[0] == 'F' && s[1] == '1' && '0' <= s[2] && s[2] <= '9')
    ||| (s.len() == 3 && s[0] == 'F' && s[1] == '2' && '0' <= s[2] && s[2] <= '4')
}

/// The canonical spellings of the named well-known keys.
pub open spec fn is_named_key_name(s: Seq<char>) -> bool {
    ||| s == "Space"@
    ||| s == "Enter"@
    ||| s == "Backspace"@
    ||| s == "Tab"@
    ||| s == "Esc"@
    ||| s == "Del"@
    ||| s == "Home"@
    ||| s == "End"@
    ||| s == "Up"@
    ||| s == "Down"@
    ||| s == "Left"@
    ||| s == "Right"@
    ||| s == "Comma"@
    ||| s == "Dot"@
    ||| s == "Slash"@
    ||| s == "Minus"@
    ||| s == "Equal"@
}

/// A well-known key: a letter, a digit, a function key, or a named key.
pub open spec fn is_regular_name(s: Seq<char>) -> bool {
    ||| is_letter_or_digit_name(s)
    ||| is_function_key_name(s)
    ||| is_named_key_name(s)
}

/// The canonical mouse-action spellings.
pub open spec fn is_mouse_name(s: Seq<char>) -> bool {
    ||| s == "Click"@
    ||| s == "Mclick"@
    ||| s == "Rclick"@
    ||| s == "Wheelup"@
    ||| s == "Wheeldown"@
}

/// First-match-wins classification of a canonical token.
pub open spec fn classify_name(s: Seq<char>) -> Option<KeyCategory> {
    if is_modifier_name(s) {
        Some(KeyCategory::Modifier)
    } else if is_media_name(s) {
        Some(KeyCategory::Media)
    } else if is_regular_name(s) {
        Some(KeyCategory::Regular)
    } else if is_mouse_name(s) {
        Some(KeyCategory::Mouse)
    } else {
        None
    }
}

proof fn lemma_modifier_name_shape(s: Seq<char>)
    requires
        is_modifier_name(s),
    ensures
        ({
        ||| (s.len() == 4 && s[0] == 'C')
        ||| (s.len() == 5 && s[0] == 'S' && s[1] == 'h')
        ||| (s.len() == 3 && s[0] == 'A')
        ||| (s.len() == 3 && s[0] == 'W')
        ||| (s.len() == 5 && s[0] == 'R' && s[1] == 'c')
        ||| (s.len() == 6 && s[0] == 'R' && s[1] == 's')
        ||| (s.len() == 4 && s[0] == 'R' && s[1] == 'a')
        ||| (s.len() == 4 && s[0] == 'R' && s[1] == 'w')
        }),
{
    reveal_strlit("Ctrl");
    reveal_strlit("Shift");
    reveal_strlit("Alt");
    reveal_strlit("Win");
    reveal_strlit("Rctrl");
    reveal_strlit("Rshift");
    reveal_strlit("Ralt");
    reveal_strlit("Rwin");
}

proof fn lemma_media_name_shape(s: Seq<char>)
    requires
        is_media_name(s),
    ensures
        ({
        ||| (s.len() == 4 && s[0] == 'P' && s[1] == 'l')
        ||| (s.len() == 4 && s[0] == 'S')
        ||| (s.len() == 4 && s[0] == 'N')
        ||| (s.len() == 4 && s[0] == 'P' && s[1] == 'r')
        ||| (s.len() == 8 && s[0] == 'P')
        ||| (s.len() == 4 && s[0] == 'M')
        ||| (s.len() == 5 && s[0] == 'V')
        ||| (s.len() == 7 && s[0] == 'V')
        ||| (s.len() == 8 && s[0] == 'V')
        ||| (s.len() == 10 && s[0] == 'V')
        ||| (s.len() == 12 && s[0] == 'B')
        ||| (s.len() == 14 && s[0] == 'B')
        }),
{
    reveal_strlit("Play");
    reveal_strlit("Stop");
    reveal_strlit("Next");
    reveal_strlit("Prev");
    reveal_strlit("Previous");
    reveal_strlit("Mute");
    reveal_strlit("Volup");
    reveal_strlit("Voldown");
    reveal_strlit("Volumeup");
    reveal_strlit("Volumedown");
    reveal_strlit("Brightnessup");
    reveal_strlit("Brightnessdown");
}

proof fn lemma_named_key_name_shape(s: Seq<char>)
    requires
        is_named_key_name(s),
    ensures
        ({
        ||| (s.len() == 5 && s[0] == 'S' && s[1] == 'p')
        ||| (s.len() == 5 && s[0] == 'E')
        ||| (s.len() == 9 && s[0] == 'B')
        ||| (s.len() == 3 && s[0] == 'T')
        ||| (s.len() == 3 && s[0] == 'E')
        ||| (s.len() == 3 && s[0] == 'D' && s[1] == 'e')
        ||| (s.len() == 4 && s[0] == 'H')
        ||| (s.len() == 3 && s[0] == 'E')
        ||| (s.len() == 2 && s[0] == 'U')
        ||| (s.len() == 4 && s[0] == 'D')
        ||| (s.len() == 4 && s[0] == 'L')
        ||| (s.len() == 5 && s[0] == 'R' && s[1] == 'i')
        ||| (s.len() == 5 && s[0] == 'C' && s[1] == 'o')
        ||| (s.len() == 3 && s[0] == 'D' && s[1] == 'o')
        ||| (s.len() == 5 && s[0] == 'S' && s[1] == 'l')
        ||| (s.len() == 5 && s[0] == 'M')
        ||| (s.len() == 5 && s[0] == 'E')
        }),
{
    reveal_strlit("Space");
    reveal_strlit("Enter");
    reveal_strlit("Backspace");
    reveal_strlit("Tab");
    reveal_strlit("Esc");
    reveal_strlit("Del");
    reveal_strlit("Home");
    reveal_strlit("End");
    reveal_strlit("Up");
    reveal_strlit("Down");
    reveal_strlit("Left");
    reveal_strlit("Right");
    reveal_strlit("Comma");
    reveal_strlit("Dot");
    reveal_strlit("Slash");
    reveal_strlit("Minus");
    reveal_strlit("Equal");
}

proof fn lemma_mouse_name_shape(s: Seq<char>)
    requires
        is_mouse_name(s),
    ensures
        ({
        ||| (s.len() == 5 && s[0] == 'C' && s[1] == 'l')
        ||| (s.len() == 6 && s[0] == 'M')
        ||| (s.len() == 6 && s[0] == 'R' && s[1] == 'c')
        ||| (s.len() == 7 && s[0] == 'W')
        ||| (s.len() == 9 && s[0] == 'W')
        }),
{
    reveal_strlit("Click");
    reveal_strlit("Mclick");
    reveal_strlit("Rclick");
    reveal_strlit("Wheelup");
    reveal_strlit("Wheeldown");
}

/// Law: the four token categories are pairwise disjoint, so the fixed
/// classification order never decides the category of a recognized token —
/// at most one category can claim any canonical spelling.
pub proof fn lemma_categories_disjoint(s: Seq<char>)
    ensures
        is_modifier_name(s) ==> !is_media_name(s) && !is_regular_name(s) && !is_mouse_name(s),
        is_media_name(s) ==> !is_modifier_name(s) && !is_regular_name(s) && !is_mouse_name(s),
        is_regular_name(s) ==> !is_modifier_name(s) && !is_media_name(s) && !is_mouse_name(s),
        is_mouse_name(s) ==> !is_modifier_name(s) && !is_media_name(s) && !is_regular_name(s),
{
    if is_modifier_name(s) {
        lemma_modifier_name_shape(s);
    }
    if is_media_name(s) {
        lemma_media_name_shape(s);
    }
    if is_named_key_name(s) {
        lemma_named_key_name_shape(s);
    }
    if is_mouse_name(s) {
        lemma_mouse_name_shape(s);
    }
}

/// Whether a canonical token is a modifier.
pub fn token_is_modifier(s: &str) -> (r: bool)
    ensures
        r == is_modifier_name(s@),
{
    str_eq(s, "Ctrl") || str_eq(s, "Shift") || str_eq(s, "Alt") || str_eq(s, "Win")
        || str_eq(s, "Rctrl") || str_eq(s, "Rshift") || str_eq(s, "Ralt") || str_eq(s, "Rwin")
}

/// Whether a canonical token is a media key.
pub fn token_is_media(s: &str) -> (r: bool)
    ensures
        r == is_media_name(s@),
{
    str_eq(s, "Play") || str_eq(s, "Stop") || str_eq(s, "Next") || str_eq(s, "Prev")
        || str_eq(s, "Previous") || str_eq(s, "Mute") || str_eq(s, "Volup")
        || str_eq(s, "Voldown") || str_eq(s, "Volumeup") || str_eq(s, "Volumedown")
        || str_eq(s, "Brightnessup") || str_eq(s, "Brightnessdown")
}

/// Whether a canonical media token is on the single-layer family's whitelist.
pub fn token_is_whitelisted_media(s: &str) -> (r: bool)
    ensures
        r == is_whitelisted_media_name(s@),
{
    str_eq(s, "Play") || str_eq(s, "Previous") || str_eq(s, "Next") || str_eq(s, "Mute")
        || str_eq(s, "Volumeup") || str_eq(s, "Volumedown")
}

/// Whether a canonical token is a well-known key.
pub fn token_is_regular(s: &str) -> (r: bool)
    ensures
        r == is_regular_name(s@),
{
    let n = s.unicode_len();
    if n == 1 {
        let c = s.get_char(0);
        if ('A' <= c && c <= 'Z') || ('0' <= c && c <= '9') {
            return true;
        }
    }
    if n == 2 {
        let c0 = s.get_char(0);
        let c1 = s.get_char(1);
        if c0 == 'F' && '1' <= c1 && c1 <= '9' {
            return true;
        }
    }
    if n == 3 {
        let c0 = s.get_char(0);
        let c1 = s.get_char(1);
        let c2 = s.get_char(2);
        if c0 == 'F' && ((c1 == '1' && '0' <= c2 && c2 <= '9') || (c1 == '2' && '0' <= c2 && c2 <= '4')) {
            return true;
        }
    }
    str_eq(s, "Space") || str_eq(s, "Enter") || str_eq(s, "Backspace") || str_eq(s, "Tab")
        || str_eq(s, "Esc") || str_eq(s, "Del") || str_eq(s, "Home") || str_eq(s, "End")
        || str_eq(s, "Up") || str_eq(s, "Down") || str_eq(s, "Left") || str_eq(s, "Right")
        || str_eq(s, "Comma") || str_eq(s, "Dot") || str_eq(s, "Slash") || str_eq(s, "Minus")
        || str_eq(s, "Equal")
}

/// Whether a canonical token is a mouse action.
pub fn token_is_mouse(s: &str) -> (r: bool)
    ensures
        r == is_mouse_name(s@),
{
    str_eq(s, "Click") || str_eq(s, "Mclick") || str_eq(s, "Rclick") || str_eq(s, "Wheelup")
        || str_eq(s, "Wheeldown")
}

/// First-match-wins classification of a canonical token.
pub fn classify_canonical(s: &str) -> (r: Option<KeyCategory>)
    ensures
        r == classify_name(s@),
{
    if token_is_modifier(s) {
        Some(KeyCategory::Modifier)
    } else if token_is_media(s) {
        Some(KeyCategory::Media)
    } else if token_is_regular(s) {
        Some(KeyCategory::Regular)
    } else if token_is_mouse(s) {
        Some(KeyCategory::Mouse)
    } else {
        None
    }
}

} // verus!

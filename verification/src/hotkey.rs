//! Parsing of hotkey combination strings and the bookkeeping of registered
//! hotkeys.
//!
//! A combination string such as `"ctrl+shift+r"` is parsed into modifier
//! flags and one key code. Registering the combination with the operating
//! system, and the key-code mapping the OS layer uses, are the application's
//! business; this module decides what a string means and which incoming
//! hotkey events belong to a registered id.

use vstd::prelude::*;
use std::collections::HashMap;
use crate::chars::{
    chars_eq_ci, chars_match_ci, spec_split, spec_trim, split_chars, str_to_chars, trim_chars,
};

verus! {

broadcast use vstd::std_specs::hash::group_hash_axioms;

/// One logical hotkey event: a press or release of a registered combination.
#[derive(Debug)]
pub struct HotkeyEvent {
    pub id: u32,
    pub hotkey: String,
    pub pressed: bool,
}

/// The keys a combination string may name.
#[derive(Debug, Clone, Copy, PartialEq, Eq, Structural)]
pub enum KeyCode {
    KeyA,
    KeyB,
    KeyC,
    KeyD,
    KeyE,
    KeyF,
    KeyG,
    KeyH,
    KeyI,
    KeyJ,
    KeyK,
    KeyL,
    KeyM,
    KeyN,
    KeyO,
    KeyP,
    KeyQ,
    KeyR,
    KeyS,
    KeyT,
    KeyU,
    KeyV,
    KeyW,
    KeyX,
    KeyY,
    KeyZ,
    Digit0,
    Digit1,
    Digit2,
    Digit3,
    Digit4,
    Digit5,
    Digit6,
    Digit7,
    Digit8,
    Digit9,
    Space,
    Enter,
    Tab,
    Backspace,
    Delete,
    Escape,
    ShiftLeft,
    ShiftRight,
    F1,
    F2,
    F3,
    F4,
    F5,
    F6,
    F7,
    F8,
    F9,
    F10,
    F11,
    F12,
    ArrowUp,
    ArrowDown,
    ArrowLeft,
    ArrowRight,
    Unidentified,
}

/// Why a combination string was rejected.
#[derive(Debug, Clone, Copy, PartialEq, Eq, Structural)]
pub enum HotkeyParseError {
    /// A part is neither a modifier nor a recognized key name.
    UnknownKey,
    /// More than one non-modifier key was named.
    MultipleKeys,
}

/// A parsed combination: modifier flags plus one key. A string naming only
/// modifiers leaves the key `Unidentified`.
#[derive(Debug, Clone, Copy, PartialEq, Eq, Structural)]
pub struct KeyCombination {
    pub ctrl: bool,
    pub shift: bool,
    pub alt: bool,
    pub meta: bool,
    pub key: KeyCode,
}

/// The key named by one lower-cased combination part, if any. Key names are
/// matched without regard to ASCII case.
pub open spec fn spec_key_code(s: Seq<char>) -> Option<KeyCode> {
    if chars_eq_ci(s, "a"@) {
        Some(KeyCode::KeyA)
    } else if chars_eq_ci(s, "b"@) {
        Some(KeyCode::KeyB)
    } else if chars_eq_ci(s, "c"@) {
        Some(KeyCode::KeyC)
    } else if chars_eq_ci(s, "d"@) {
        Some(KeyCode::KeyD)
    } else if chars_eq_ci(s, "e"@) {
        Some(KeyCode::KeyE)
    } else if chars_eq_ci(s, "f"@) {
        Some(KeyCode::KeyF)
    } else if chars_eq_ci(s, "g"@) {
        Some(KeyCode::KeyG)
    } else if chars_eq_ci(s, "h"@) {
        Some(KeyCode::KeyH)
    } else if chars_eq_ci(s, "i"@) {
        Some(KeyCode::KeyI)
    } else if chars_eq_ci(s, "j"@) {
        Some(KeyCode::KeyJ)
    } else if chars_eq_ci(s, "k"@) {
        Some(KeyCode::KeyK)
    } else if chars_eq_ci(s, "l"@) {
        Some(KeyCode::KeyL)
    } else if chars_eq_ci(s, "m"@) {
        Some(KeyCode::KeyM)
    } else if chars_eq_ci(s, "n"@) {
        Some(KeyCode::KeyN)
    } else if chars_eq_ci(s, "o"@) {
        Some(KeyCode::KeyO)
    } else if chars_eq_ci(s, "p"@) {
        Some(KeyCode::KeyP)
    } else if chars_eq_ci(s, "q"@) {
        Some(KeyCode::KeyQ)
    } else if chars_eq_ci(s, "r"@) {
        Some(KeyCode::KeyR)
    } else if chars_eq_ci(s, "s"@) {
        Some(KeyCode::KeyS)
    } else if chars_eq_ci(s, "t"@) {
        Some(KeyCode::KeyT)
    } else if chars_eq_ci(s, "u"@) {
        Some(KeyCode::KeyU)
    } else if chars_eq_ci(s, "v"@) {
        Some(KeyCode::KeyV)
    } else if chars_eq_ci(s, "w"@) {
        Some(KeyCode::KeyW)
    } else if chars_eq_ci(s, "x"@) {
        Some(KeyCode::KeyX)
    } else if chars_eq_ci(s, "y"@) {
        Some(KeyCode::KeyY)
    } else if chars_eq_ci(s, "z"@) {
        Some(KeyCode::KeyZ)
    } else if chars_eq_ci(s, "0"@) {
        Some(KeyCode::Digit0)
    } else if chars_eq_ci(s, "1"@) {
        Some(KeyCode::Digit1)
    } else if chars_eq_ci(s, "2"@) {
        Some(KeyCode::Digit2)
    } else if chars_eq_ci(s, "3"@) {
        Some(KeyCode::Digit3)
    } else if chars_eq_ci(s, "4"@) {
        Some(KeyCode::Digit4)
    } else if chars_eq_ci(s, "5"@) {
        Some(KeyCode::Digit5)
    } else if chars_eq_ci(s, "6"@) {
        Some(KeyCode::Digit6)
    } else if chars_eq_ci(s, "7"@) {
        Some(KeyCode::Digit7)
    } else if chars_eq_ci(s, "8"@) {
        Some(KeyCode::Digit8)
    } else if chars_eq_ci(s, "9"@) {
        Some(KeyCode::Digit9)
    } else if chars_eq_ci(s, "space"@) {
        Some(KeyCode::Space)
    } else if chars_eq_ci(s, "enter"@) || chars_eq_ci(s, "return"@) {
        Some(KeyCode::Enter)
    } else if chars_eq_ci(s, "tab"@) {
        Some(KeyCode::Tab)
    } else if chars_eq_ci(s, "backspace"@) {
        Some(KeyCode::Backspace)
    } else if chars_eq_ci(s, "delete"@) {
        Some(KeyCode::Delete)
    } else if chars_eq_ci(s, "escape"@) || chars_eq_ci(s, "esc"@) {
        Some(KeyCode::Escape)
    } else if chars_eq_ci(s, "lshift"@) {
        Some(KeyCode::ShiftLeft)
    } else if chars_eq_ci(s, "rshift"@) {
        Some(KeyCode::ShiftRight)
    } else if chars_eq_ci(s, "f1"@) {
        Some(KeyCode::F1)
    } else if chars_eq_ci(s, "f2"@) {
        Some(KeyCode::F2)
    } else if chars_eq_ci(s, "f3"@) {
        Some(KeyCode::F3)
    } else if chars_eq_ci(s, "f4"@) {
        Some(KeyCode::F4)
    } else if chars_eq_ci(s, "f5"@) {
        Some(KeyCode::F5)
    } else if chars_eq_ci(s, "f6"@) {
        Some(KeyCode::F6)
    } else if chars_eq_ci(s, "f7"@) {
        Some(KeyCode::F7)
    } else if chars_eq_ci(s, "f8"@) {
        Some(KeyCode::F8)
    } else if chars_eq_ci(s, "f9"@) {
        Some(KeyCode::F9)
    } else if chars_eq_ci(s, "f10"@) {
        Some(KeyCode::F10)
    } else if chars_eq_ci(s, "f11"@) {
        Some(KeyCode::F11)
    } else if chars_eq_ci(s, "f12"@) {
        Some(KeyCode::F12)
    } else if chars_eq_ci(s, "up"@) {
        Some(KeyCode::ArrowUp)
    } else if chars_eq_ci(s, "down"@) {
        Some(KeyCode::ArrowDown)
    } else if chars_eq_ci(s, "left"@) {
        Some(KeyCode::ArrowLeft)
    } else if chars_eq_ci(s, "right"@) {
        Some(KeyCode::ArrowRight)
    } else {
        None
    }
}

/// Parse one combination part that is not a modifier.
pub fn parse_key_code(part: &Vec<char>) -> (r: Result<KeyCode, HotkeyParseError>)
    ensures
        r matches Ok(k) ==> spec_key_code(part@) == Some(k),
        r is Err ==> spec_key_code(part@) is None && r == Err::<KeyCode, HotkeyParseError>(
            HotkeyParseError::UnknownKey,
        ),
{
    if chars_match_ci(part, "a") {
        Ok(KeyCode::KeyA)
    } else if chars_match_ci(part, "b") {
        Ok(KeyCode::KeyB)
    } else if chars_match_ci(part, "c") {
        Ok(KeyCode::KeyC)
    } else if chars_match_ci(part, "d") {
        Ok(KeyCode::KeyD)
    } else if chars_match_ci(part, "e") {
        Ok(KeyCode::KeyE)
    } else if chars_match_ci(part, "f") {
        Ok(KeyCode::KeyF)
    } else if chars_match_ci(part, "g") {
        Ok(KeyCode::KeyG)
    } else if chars_match_ci(part, "h") {
        Ok(KeyCode::KeyH)
    } else if chars_match_ci(part, "i") {
        Ok(KeyCode::KeyI)
    } else if chars_match_ci(part, "j") {
        Ok(KeyCode::KeyJ)
    } else if chars_match_ci(part, "k") {
        Ok(KeyCode::KeyK)
    } else if chars_match_ci(part, "l") {
        Ok(KeyCode::KeyL)
    } else if chars_match_ci(part, "m") {
        Ok(KeyCode::KeyM)
    } else if chars_match_ci(part, "n") {
        Ok(KeyCode::KeyN)
    } else if chars_match_ci(part, "o") {
        Ok(KeyCode::KeyO)
    } else if chars_match_ci(part, "p") {
        Ok(KeyCode::KeyP)
    } else if chars_match_ci(part, "q") {
        Ok(KeyCode::KeyQ)
    } else if chars_match_ci(part, "r") {
        Ok(KeyCode::KeyR)
    } else if chars_match_ci(part, "s") {
        Ok(KeyCode::KeyS)
    } else if chars_match_ci(part, "t") {
        Ok(KeyCode::KeyT)
    } else if chars_match_ci(part, "u") {
        Ok(KeyCode::KeyU)
    } else if chars_match_ci(part, "v") {
        Ok(KeyCode::KeyV)
    } else if chars_match_ci(part, "w") {
        Ok(KeyCode::KeyW)
    } else if chars_match_ci(part, "x") {
        Ok(KeyCode::KeyX)
    } else if chars_match_ci(part, "y") {
        Ok(KeyCode::KeyY)
    } else if chars_match_ci(part, "z") {
        Ok(KeyCode::KeyZ)
    } else if chars_match_ci(part, "0") {
        Ok(KeyCode::Digit0)
    } else if chars_match_ci(part, "1") {
        Ok(KeyCode::Digit1)
    } else if chars_match_ci(part, "2") {
        Ok(KeyCode::Digit2)
    } else if chars_match_ci(part, "3") {
        Ok(KeyCode::Digit3)
    } else if chars_match_ci(part, "4") {
        Ok(KeyCode::Digit4)
    } else if chars_match_ci(part, "5") {
        Ok(KeyCode::Digit5)
    } else if chars_match_ci(part, "6") {
        Ok(KeyCode::Digit6)
    } else if chars_match_ci(part, "7") {
        Ok(KeyCode::Digit7)
    } else if chars_match_ci(part, "8") {
        Ok(KeyCode::Digit8)
    } else if chars_match_ci(part, "9") {
        Ok(KeyCode::Digit9)
    } else if chars_match_ci(part, "space") {
        Ok(KeyCode::Space)
    } else if chars_match_ci(part, "enter") || chars_match_ci(part, "return") {
        Ok(KeyCode::Enter)
    } else if chars_match_ci(part, "tab") {
        Ok(KeyCode::Tab)
    } else if chars_match_ci(part, "backspace") {
        Ok(KeyCode::Backspace)
    } else if chars_match_ci(part, "delete") {
        Ok(KeyCode::Delete)
    } else if chars_match_ci(part, "escape") || chars_match_ci(part, "esc") {
        Ok(KeyCode::Escape)
    } else if chars_match_ci(part, "lshift") {
        Ok(KeyCode::ShiftLeft)
    } else if chars_match_ci(part, "rshift") {
        Ok(KeyCode::ShiftRight)
    } else if chars_match_ci(part, "f1") {
        Ok(KeyCode::F1)
    } else if chars_match_ci(part, "f2") {
        Ok(KeyCode::F2)
    } else if chars_match_ci(part, "f3") {
        Ok(KeyCode::F3)
    } else if chars_match_ci(part, "f4") {
        Ok(KeyCode::F4)
    } else if chars_match_ci(part, "f5") {
        Ok(KeyCode::F5)
    } else if chars_match_ci(part, "f6") {
        Ok(KeyCode::F6)
    } else if chars_match_ci(part, "f7") {
        Ok(KeyCode::F7)
    } else if chars_match_ci(part, "f8") {
        Ok(KeyCode::F8)
    } else if chars_match_ci(part, "f9") {
        Ok(KeyCode::F9)
    } else if chars_match_ci(part, "f10") {
        Ok(KeyCode::F10)
    } else if chars_match_ci(part, "f11") {
        Ok(KeyCode::F11)
    } else if chars_match_ci(part, "f12") {
        Ok(KeyCode::F12)
    } else if chars_match_ci(part, "up") {
        Ok(KeyCode::ArrowUp)
    } else if chars_match_ci(part, "down") {
        Ok(KeyCode::ArrowDown)
    } else if chars_match_ci(part, "left") {
        Ok(KeyCode::ArrowLeft)
    } else if chars_match_ci(part, "right") {
        Ok(KeyCode::ArrowRight)
    } else {
        Err(HotkeyParseError::UnknownKey)
    }
}

/// Fold the split parts of a combination string, trimming each: modifier
/// names set their flag, the first key name sets the key, a second key name
/// is an error, an unrecognized name is an error.
pub open spec fn spec_classify_parts(
    parts: Seq<Seq<char>>,
    acc: KeyCombination,
    have_key: bool,
) -> Result<KeyCombination, HotkeyParseError>
    decreases parts.len(),
{
    if parts.len() == 0 {
        Ok(acc)
    } else {
        let p = spec_trim(parts[0]);
        if chars_eq_ci(p, "ctrl"@) || chars_eq_ci(p, "cmd"@) {
            spec_classify_parts(
                parts.skip(1),
                KeyCombination { ctrl: true, ..acc },
                have_key,
            )
        } else if chars_eq_ci(p, "shift"@) {
            spec_classify_parts(
                parts.skip(1),
                KeyCombination { shift: true, ..acc },
                have_key,
            )
        } else if chars_eq_ci(p, "alt"@) {
            spec_classify_parts(parts.skip(1), KeyCombination { alt: true, ..acc }, have_key)
        } else if chars_eq_ci(p, "super"@) || chars_eq_ci(p, "win"@) || chars_eq_ci(p, "meta"@) {
            spec_classify_parts(parts.skip(1), KeyCombination { meta: true, ..acc }, have_key)
        } else if have_key {
            Err(HotkeyParseError::MultipleKeys)
        } else {
            match spec_key_code(p) {
                Some(k) => spec_classify_parts(
                    parts.skip(1),
                    KeyCombination { key: k, ..acc },
                    true,
                ),
                None => Err(HotkeyParseError::UnknownKey),
            }
        }
    }
}

/// What a combination string means: its `+`-separated parts classified in
/// order, starting from no modifiers and no key.
pub open spec fn spec_parse_hotkey(s: Seq<char>) -> Result<KeyCombination, HotkeyParseError> {
    spec_classify_parts(
        spec_split(s, '+'),
        KeyCombination {
            ctrl: false,
            shift: false,
            alt: false,
            meta: false,
            key: KeyCode::Unidentified,
        },
        false,
    )
}

/// Parse a combination string such as `"ctrl+shift+r"`: case-insensitive
/// modifier and key names separated by `+`, whitespace around each part
/// ignored.
pub fn parse_hotkey_string(s: &str) -> (r: Result<KeyCombination, HotkeyParseError>)
    ensures
        r == spec_parse_hotkey(s@),
{
    let chars = str_to_chars(s);
    let parts = split_chars(&chars, '+');
    let mut acc = KeyCombination {
        ctrl: false,
        shift: false,
        alt: false,
        meta: false,
        key: KeyCode::Unidentified,
    };
    let mut have_key = false;
    let n = parts.len();
    let mut i: usize = 0;
    proof {
        assert(parts.deep_view().skip(0) =~= parts.deep_view());
    }
    while i < n
        invariant
            i <= n == parts.deep_view().len(),
            parts.deep_view().len() == parts@.len(),
            spec_parse_hotkey(s@) == spec_classify_parts(
                parts.deep_view().skip(i as int),
                acc,
                have_key,
            ),
        decreases n - i,
    {
        proof {
            assert(parts.deep_view().skip(i as int)[0] =~= parts@[i as int]@);
            assert(parts.deep_view().skip(i as int).skip(1) =~= parts.deep_view().skip(
                i + 1 as int,
            ));
        }
        let p = trim_chars(&parts[i]);
        if chars_match_ci(&p, "ctrl") || chars_match_ci(&p, "cmd") {
            acc.ctrl = true;
        } else if chars_match_ci(&p, "shift") {
            acc.shift = true;
        } else if chars_match_ci(&p, "alt") {
            acc.alt = true;
        } else if chars_match_ci(&p, "super") || chars_match_ci(&p, "win") || chars_match_ci(
            &p,
            "meta",
        ) {
            acc.meta = true;
        } else if have_key {
            return Err(HotkeyParseError::MultipleKeys);
        } else {
            match parse_key_code(&p) {
                Ok(k) => {
                    acc.key = k;
                    have_key = true;
                },
                Err(e) => {
                    return Err(e);
                },
            }
        }
        i = i + 1;
    }
    proof {
        assert(parts.deep_view().skip(n as int) =~= Seq::<Seq<char>>::empty());
    }
    Ok(acc)
}

/// Bookkeeping of registered hotkeys: which id carries which combination
/// string. The OS-level registration itself happens outside; this map is
/// what event admission consults.
pub struct HotkeyRegistry {
    pub hotkeys: HashMap<u32, String>,
}

impl HotkeyRegistry {
    /// An empty registry.
    pub fn new() -> (r: Self)
        ensures
            r.hotkeys@ == Map::<u32, String>::empty(),
    {
        HotkeyRegistry { hotkeys: HashMap::new() }
    }

    /// Record a registered combination under its id.
    pub fn record(&mut self, id: u32, combination: String)
        ensures
            final(self).hotkeys@ == old(self).hotkeys@.insert(id, combination),
    {
        self.hotkeys.insert(id, combination);
    }

    /// Drop an id, returning the combination it carried, if any.
    pub fn forget(&mut self, id: u32) -> (r: Option<String>)
        ensures
            final(self).hotkeys@ == old(self).hotkeys@.remove(id),
            r is Some <==> old(self).hotkeys@.contains_key(id),
            r matches Some(c) ==> old(self).hotkeys@[id] == c,
    {
        self.hotkeys.remove(&id)
    }

    /// The combination registered under an id, if any.
    pub fn lookup(&self, id: u32) -> (r: Option<&String>)
        ensures
            r is Some <==> self.hotkeys@.contains_key(id),
            r matches Some(c) ==> self.hotkeys@[id] == *c,
    {
        self.hotkeys.get(&id)
    }

    /// Turn a raw press/release observation into a hotkey event, admitting
    /// it only when the id is registered. Release events are admitted too;
    /// the session transition ignores them.
    pub fn admit_event(&self, id: u32, pressed: bool) -> (r: Option<HotkeyEvent>)
        ensures
            r is Some <==> self.hotkeys@.contains_key(id),
            r matches Some(e) ==> e.id == id && e.pressed == pressed && e.hotkey@ == self.hotkeys@[id]@,
    {
        match self.hotkeys.get(&id) {
            Some(combination) => Some(
                HotkeyEvent { id, hotkey: combination.clone(), pressed },
            ),
            None => None,
        }
    }
}

} // verus!

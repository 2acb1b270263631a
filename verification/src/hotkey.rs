//! Hotkey strings such as `"Alt+Backquote"` or `"Ctrl + Shift + Q"`: how
//! they are normalized, cut into parts and read as modifiers and one key,
//! and how the result becomes a `global_hotkey` hotkey.

use vstd::prelude::*;

use global_hotkey::hotkey::{Code, HotKey, Modifiers};

use vstd::utf8::is_ascii_chars;

use crate::text::{
    ascii_lowercase, lemma_ascii_lowercase_idempotent, lemma_without_absent_char,
    lemma_without_char_facts,
    chars_match_str, chars_of, lowercase, lowered, remove_spaces, split_on, without_char,
};

verus! {

/// The keys a hotkey can name: the subset of the W3C `KeyboardEvent.code`
/// values that hotkey strings accept.
#[derive(Clone, Copy, Debug, PartialEq, Eq, Structural)]
pub enum KeyCode {
    Backquote,
    Tab,
    Enter,
    Space,
    Escape,
    Backspace,
    Delete,
    ArrowUp,
    ArrowDown,
    ArrowLeft,
    ArrowRight,
    Home,
    End,
    PageUp,
    PageDown,
    Digit0,
    Digit1,
    Digit2,
    Digit3,
    Digit4,
    Digit5,
    Digit6,
    Digit7,
    Digit8,
    Digit9,
    KeyA,
    KeyB,
    KeyC,
    KeyD,
    KeyE,
    KeyF,
    KeyG,
    KeyH,
    KeyI,
    KeyJ,
    KeyK,
    KeyL,
    KeyM,
    KeyN,
    KeyO,
    KeyP,
    KeyQ,
    KeyR,
    KeyS,
    KeyT,
    KeyU,
    KeyV,
    KeyW,
    KeyX,
    KeyY,
    KeyZ,
    F1,
    F2,
    F3,
    F4,
    F5,
    F6,
    F7,
    F8,
    F9,
    F10,
    F11,
    F12,
}

/// The key that a lowercase key name stands for; an unknown or empty name
/// stands for the backquote key.
pub open spec fn key_for(name: Seq<char>) -> KeyCode {
    if name == "backquote"@ || name == "`"@ || name == "~"@ {
        KeyCode::Backquote
    } else if name == "tab"@ {
        KeyCode::Tab
    } else if name == "enter"@ || name == "return"@ {
        KeyCode::Enter
    } else if name == "space"@ {
        KeyCode::Space
    } else if name == "esc"@ || name == "escape"@ {
        KeyCode::Escape
    } else if name == "backspace"@ {
        KeyCode::Backspace
    } else if name == "delete"@ || name == "del"@ {
        KeyCode::Delete
    } else if name == "up"@ {
        KeyCode::ArrowUp
    } else if name == "down"@ {
        KeyCode::ArrowDown
    } else if name == "left"@ {
        KeyCode::ArrowLeft
    } else if name == "right"@ {
        KeyCode::ArrowRight
    } else if name == "home"@ {
        KeyCode::Home
    } else if name == "end"@ {
        KeyCode::End
    } else if name == "pageup"@ {
        KeyCode::PageUp
    } else if name == "pagedown"@ {
        KeyCode::PageDown
    } else if name == "0"@ {
        KeyCode::Digit0
    } else if name == "1"@ {
        KeyCode::Digit1
    } else if name == "2"@ {
        KeyCode::Digit2
    } else if name == "3"@ {
        KeyCode::Digit3
    } else if name == "4"@ {
        KeyCode::Digit4
    } else if name == "5"@ {
        KeyCode::Digit5
    } else if name == "6"@ {
        KeyCode::Digit6
    } else if name == "7"@ {
        KeyCode::Digit7
    } else if name == "8"@ {
        KeyCode::Digit8
    } else if name == "9"@ {
        KeyCode::Digit9
    } else if name == "a"@ {
        KeyCode::KeyA
    } else if name == "b"@ {
        KeyCode::KeyB
    } else if name == "c"@ {
        KeyCode::KeyC
    } else if name == "d"@ {
        KeyCode::KeyD
    } else if name == "e"@ {
        KeyCode::KeyE
    } else if name == "f"@ {
        KeyCode::KeyF
    } else if name == "g"@ {
        KeyCode::KeyG
    } else if name == "h"@ {
        KeyCode::KeyH
    } else if name == "i"@ {
        KeyCode::KeyI
    } else if name == "j"@ {
        KeyCode::KeyJ
    } else if name == "k"@ {
        KeyCode::KeyK
    } else if name == "l"@ {
        KeyCode::KeyL
    } else if name == "m"@ {
        KeyCode::KeyM
    } else if name == "n"@ {
        KeyCode::KeyN
    } else if name == "o"@ {
        KeyCode::KeyO
    } else if name == "p"@ {
        KeyCode::KeyP
    } else if name == "q"@ {
        KeyCode::KeyQ
    } else if name == "r"@ {
        KeyCode::KeyR
    } else if name == "s"@ {
        KeyCode::KeyS
    } else if name == "t"@ {
        KeyCode::KeyT
    } else if name == "u"@ {
        KeyCode::KeyU
    } else if name == "v"@ {
        KeyCode::KeyV
    } else if name == "w"@ {
        KeyCode::KeyW
    } else if name == "x"@ {
        KeyCode::KeyX
    } else if name == "y"@ {
        KeyCode::KeyY
    } else if name == "z"@ {
        KeyCode::KeyZ
    } else if name == "f1"@ {
        KeyCode::F1
    } else if name == "f2"@ {
        KeyCode::F2
    } else if name == "f3"@ {
        KeyCode::F3
    } else if name == "f4"@ {
        KeyCode::F4
    } else if name == "f5"@ {
        KeyCode::F5
    } else if name == "f6"@ {
        KeyCode::F6
    } else if name == "f7"@ {
        KeyCode::F7
    } else if name == "f8"@ {
        KeyCode::F8
    } else if name == "f9"@ {
        KeyCode::F9
    } else if name == "f10"@ {
        KeyCode::F10
    } else if name == "f11"@ {
        KeyCode::F11
    } else if name == "f12"@ {
        KeyCode::F12
    } else {
        KeyCode::Backquote
    }
}

/// The key that the lowercase key name `name` stands for.
pub fn key_for_chars(name: &[char]) -> (k: KeyCode)
    ensures
        k == key_for(name@),
{
    if chars_match_str(name, "backquote") || chars_match_str(name, "`") || chars_match_str(name, "~") {
        return KeyCode::Backquote;
    }
    if chars_match_str(name, "tab") {
        return KeyCode::Tab;
    }
    if chars_match_str(name, "enter") || chars_match_str(name, "return") {
        return KeyCode::Enter;
    }
    if chars_match_str(name, "space") {
        return KeyCode::Space;
    }
    if chars_match_str(name, "esc") || chars_match_str(name, "escape") {
        return KeyCode::Escape;
    }
    if chars_match_str(name, "backspace") {
        return KeyCode::Backspace;
    }
    if chars_match_str(name, "delete") || chars_match_str(name, "del") {
        return KeyCode::Delete;
    }
    if chars_match_str(name, "up") {
        return KeyCode::ArrowUp;
    }
    if chars_match_str(name, "down") {
        return KeyCode::ArrowDown;
    }
    if chars_match_str(name, "left") {
        return KeyCode::ArrowLeft;
    }
    if chars_match_str(name, "right") {
        return KeyCode::ArrowRight;
    }
    if chars_match_str(name, "home") {
        return KeyCode::Home;
    }
    if chars_match_str(name, "end") {
        return KeyCode::End;
    }
    if chars_match_str(name, "pageup") {
        return KeyCode::PageUp;
    }
    if chars_match_str(name, "pagedown") {
        return KeyCode::PageDown;
    }
    if chars_match_str(name, "0") {
        return KeyCode::Digit0;
    }
    if chars_match_str(name, "1") {
        return KeyCode::Digit1;
    }
    if chars_match_str(name, "2") {
        return KeyCode::Digit2;
    }
    if chars_match_str(name, "3") {
        return KeyCode::Digit3;
    }
    if chars_match_str(name, "4") {
        return KeyCode::Digit4;
    }
    if chars_match_str(name, "5") {
        return KeyCode::Digit5;
    }
    if chars_match_str(name, "6") {
        return KeyCode::Digit6;
    }
    if chars_match_str(name, "7") {
        return KeyCode::Digit7;
    }
    if chars_match_str(name, "8") {
        return KeyCode::Digit8;
    }
    if chars_match_str(name, "9") {
        return KeyCode::Digit9;
    }
    if chars_match_str(name, "a") {
        return KeyCode::KeyA;
    }
    if chars_match_str(name, "b") {
        return KeyCode::KeyB;
    }
    if chars_match_str(name, "c") {
        return KeyCode::KeyC;
    }
    if chars_match_str(name, "d") {
        return KeyCode::KeyD;
    }
    if chars_match_str(name, "e") {
        return KeyCode::KeyE;
    }
    if chars_match_str(name, "f") {
        return KeyCode::KeyF;
    }
    if chars_match_str(name, "g") {
        return KeyCode::KeyG;
    }
    if chars_match_str(name, "h") {
        return KeyCode::KeyH;
    }
    if chars_match_str(name, "i") {
        return KeyCode::KeyI;
    }
    if chars_match_str(name, "j") {
        return KeyCode::KeyJ;
    }
    if chars_match_str(name, "k") {
        return KeyCode::KeyK;
    }
    if chars_match_str(name, "l") {
        return KeyCode::KeyL;
    }
    if chars_match_str(name, "m") {
        return KeyCode::KeyM;
    }
    if chars_match_str(name, "n") {
        return KeyCode::KeyN;
    }
    if chars_match_str(name, "o") {
        return KeyCode::KeyO;
    }
    if chars_match_str(name, "p") {
        return KeyCode::KeyP;
    }
    if chars_match_str(name, "q") {
        return KeyCode::KeyQ;
    }
    if chars_match_str(name, "r") {
        return KeyCode::KeyR;
    }
    if chars_match_str(name, "s") {
        return KeyCode::KeyS;
    }
    if chars_match_str(name, "t") {
        return KeyCode::KeyT;
    }
    if chars_match_str(name, "u") {
        return KeyCode::KeyU;
    }
    if chars_match_str(name, "v") {
        return KeyCode::KeyV;
    }
    if chars_match_str(name, "w") {
        return KeyCode::KeyW;
    }
    if chars_match_str(name, "x") {
        return KeyCode::KeyX;
    }
    if chars_match_str(name, "y") {
        return KeyCode::KeyY;
    }
    if chars_match_str(name, "z") {
        return KeyCode::KeyZ;
    }
    if chars_match_str(name, "f1") {
        return KeyCode::F1;
    }
    if chars_match_str(name, "f2") {
        return KeyCode::F2;
    }
    if chars_match_str(name, "f3") {
        return KeyCode::F3;
    }
    if chars_match_str(name, "f4") {
        return KeyCode::F4;
    }
    if chars_match_str(name, "f5") {
        return KeyCode::F5;
    }
    if chars_match_str(name, "f6") {
        return KeyCode::F6;
    }
    if chars_match_str(name, "f7") {
        return KeyCode::F7;
    }
    if chars_match_str(name, "f8") {
        return KeyCode::F8;
    }
    if chars_match_str(name, "f9") {
        return KeyCode::F9;
    }
    if chars_match_str(name, "f10") {
        return KeyCode::F10;
    }
    if chars_match_str(name, "f11") {
        return KeyCode::F11;
    }
    if chars_match_str(name, "f12") {
        return KeyCode::F12;
    }
    KeyCode::Backquote
}

impl KeyCode {
    /// The key's W3C `KeyboardEvent.code` name, such as `KeyA`.
    pub open spec fn w3c_name_spec(self) -> Seq<char> {
        match self {
            KeyCode::Backquote => "Backquote"@,
            KeyCode::Tab => "Tab"@,
            KeyCode::Enter => "Enter"@,
            KeyCode::Space => "Space"@,
            KeyCode::Escape => "Escape"@,
            KeyCode::Backspace => "Backspace"@,
            KeyCode::Delete => "Delete"@,
            KeyCode::ArrowUp => "ArrowUp"@,
            KeyCode::ArrowDown => "ArrowDown"@,
            KeyCode::ArrowLeft => "ArrowLeft"@,
            KeyCode::ArrowRight => "ArrowRight"@,
            KeyCode::Home => "Home"@,
            KeyCode::End => "End"@,
            KeyCode::PageUp => "PageUp"@,
            KeyCode::PageDown => "PageDown"@,
            KeyCode::Digit0 => "Digit0"@,
            KeyCode::Digit1 => "Digit1"@,
            KeyCode::Digit2 => "Digit2"@,
            KeyCode::Digit3 => "Digit3"@,
            KeyCode::Digit4 => "Digit4"@,
            KeyCode::Digit5 => "Digit5"@,
            KeyCode::Digit6 => "Digit6"@,
            KeyCode::Digit7 => "Digit7"@,
            KeyCode::Digit8 => "Digit8"@,
            KeyCode::Digit9 => "Digit9"@,
            KeyCode::KeyA => "KeyA"@,
            KeyCode::KeyB => "KeyB"@,
            KeyCode::KeyC => "KeyC"@,
            KeyCode::KeyD => "KeyD"@,
            KeyCode::KeyE => "KeyE"@,
            KeyCode::KeyF => "KeyF"@,
            KeyCode::KeyG => "KeyG"@,
            KeyCode::KeyH => "KeyH"@,
            KeyCode::KeyI => "KeyI"@,
            KeyCode::KeyJ => "KeyJ"@,
            KeyCode::KeyK => "KeyK"@,
            KeyCode::KeyL => "KeyL"@,
            KeyCode::KeyM => "KeyM"@,
            KeyCode::KeyN => "KeyN"@,
            KeyCode::KeyO => "KeyO"@,
            KeyCode::KeyP => "KeyP"@,
            KeyCode::KeyQ => "KeyQ"@,
            KeyCode::KeyR => "KeyR"@,
            KeyCode::KeyS => "KeyS"@,
            KeyCode::KeyT => "KeyT"@,
            KeyCode::KeyU => "KeyU"@,
            KeyCode::KeyV => "KeyV"@,
            KeyCode::KeyW => "KeyW"@,
            KeyCode::KeyX => "KeyX"@,
            KeyCode::KeyY => "KeyY"@,
            KeyCode::KeyZ => "KeyZ"@,
            KeyCode::F1 => "F1"@,
            KeyCode::F2 => "F2"@,
            KeyCode::F3 => "F3"@,
            KeyCode::F4 => "F4"@,
            KeyCode::F5 => "F5"@,
            KeyCode::F6 => "F6"@,
            KeyCode::F7 => "F7"@,
            KeyCode::F8 => "F8"@,
            KeyCode::F9 => "F9"@,
            KeyCode::F10 => "F10"@,
            KeyCode::F11 => "F11"@,
            KeyCode::F12 => "F12"@,
        }
    }

    /// The key's W3C `KeyboardEvent.code` name, such as `KeyA`.
    pub fn w3c_name(&self) -> (r: &'static str)
        ensures
            r@ == self.w3c_name_spec(),
    {
        match self {
            KeyCode::Backquote => "Backquote",
            KeyCode::Tab => "Tab",
            KeyCode::Enter => "Enter",
            KeyCode::Space => "Space",
            KeyCode::Escape => "Escape",
            KeyCode::Backspace => "Backspace",
            KeyCode::Delete => "Delete",
            KeyCode::ArrowUp => "ArrowUp",
            KeyCode::ArrowDown => "ArrowDown",
            KeyCode::ArrowLeft => "ArrowLeft",
            KeyCode::ArrowRight => "ArrowRight",
            KeyCode::Home => "Home",
            KeyCode::End => "End",
            KeyCode::PageUp => "PageUp",
            KeyCode::PageDown => "PageDown",
            KeyCode::Digit0 => "Digit0",
            KeyCode::Digit1 => "Digit1",
            KeyCode::Digit2 => "Digit2",
            KeyCode::Digit3 => "Digit3",
            KeyCode::Digit4 => "Digit4",
            KeyCode::Digit5 => "Digit5",
            KeyCode::Digit6 => "Digit6",
            KeyCode::Digit7 => "Digit7",
            KeyCode::Digit8 => "Digit8",
            KeyCode::Digit9 => "Digit9",
            KeyCode::KeyA => "KeyA",
            KeyCode::KeyB => "KeyB",
            KeyCode::KeyC => "KeyC",
            KeyCode::KeyD => "KeyD",
            KeyCode::KeyE => "KeyE",
            KeyCode::KeyF => "KeyF",
            KeyCode::KeyG => "KeyG",
            KeyCode::KeyH => "KeyH",
            KeyCode::KeyI => "KeyI",
            KeyCode::KeyJ => "KeyJ",
            KeyCode::KeyK => "KeyK",
            KeyCode::KeyL => "KeyL",
            KeyCode::KeyM => "KeyM",
            KeyCode::KeyN => "KeyN",
            KeyCode::KeyO => "KeyO",
            KeyCode::KeyP => "KeyP",
            KeyCode::KeyQ => "KeyQ",
            KeyCode::KeyR => "KeyR",
            KeyCode::KeyS => "KeyS",
            KeyCode::KeyT => "KeyT",
            KeyCode::KeyU => "KeyU",
            KeyCode::KeyV => "KeyV",
            KeyCode::KeyW => "KeyW",
            KeyCode::KeyX => "KeyX",
            KeyCode::KeyY => "KeyY",
            KeyCode::KeyZ => "KeyZ",
            KeyCode::F1 => "F1",
            KeyCode::F2 => "F2",
            KeyCode::F3 => "F3",
            KeyCode::F4 => "F4",
            KeyCode::F5 => "F5",
            KeyCode::F6 => "F6",
            KeyCode::F7 => "F7",
            KeyCode::F8 => "F8",
            KeyCode::F9 => "F9",
            KeyCode::F10 => "F10",
            KeyCode::F11 => "F11",
            KeyCode::F12 => "F12",
        }
    }
}

/// The modifier keys of a hotkey.
#[derive(Clone, Copy, Debug, PartialEq, Eq, Structural)]
pub struct HotkeyModifiers {
    pub control: bool,
    pub alt: bool,
    pub shift: bool,
    pub meta: bool,
}

/// A hotkey read from its text: its modifiers and its key.
#[derive(Clone, Copy, Debug, PartialEq, Eq, Structural)]
pub struct ParsedHotkey {
    pub modifiers: HotkeyModifiers,
    pub key: KeyCode,
}

/// No modifier pressed.
pub open spec fn no_modifiers() -> HotkeyModifiers {
    HotkeyModifiers { control: false, alt: false, shift: false, meta: false }
}

/// The modifiers and key name gathered after reading one more part of a
/// normalized hotkey string: a modifier name adds its modifier, any other
/// part becomes the key name, replacing the one before.
pub open spec fn read_part(acc: (HotkeyModifiers, Seq<char>), part: Seq<char>) -> (
    HotkeyModifiers,
    Seq<char>,
) {
    let m = acc.0;
    if part == "ctrl"@ || part == "control"@ {
        (HotkeyModifiers { control: true, ..m }, acc.1)
    } else if part == "alt"@ {
        (HotkeyModifiers { alt: true, ..m }, acc.1)
    } else if part == "shift"@ {
        (HotkeyModifiers { shift: true, ..m }, acc.1)
    } else if part == "cmd"@ || part == "command"@ || part == "win"@ || part == "meta"@ {
        (HotkeyModifiers { meta: true, ..m }, acc.1)
    } else {
        (m, part)
    }
}

/// The modifiers and key name gathered from `parts`, read from first to
/// last, starting with no modifier and an empty key name.
pub open spec fn read_parts(parts: Seq<Seq<char>>) -> (HotkeyModifiers, Seq<char>)
    decreases parts.len(),
{
    if parts.len() == 0 {
        (no_modifiers(), Seq::<char>::empty())
    } else {
        read_part(read_parts(parts.drop_last()), parts.last())
    }
}

/// The hotkey that a normalized hotkey string (no spaces, lowercase)
/// stands for: its parts are the pieces between `+` signs.
pub open spec fn hotkey_of_normalized(normalized: Seq<char>) -> ParsedHotkey {
    let read = read_parts(split_on(normalized, '+'));
    ParsedHotkey { modifiers: read.0, key: key_for(read.1) }
}

/// The normalized form of a hotkey string: spaces removed, then lowercased.
pub open spec fn normalized_hotkey(text: Seq<char>) -> Seq<char> {
    lowered(without_char(text, ' '))
}

/// The hotkey that a hotkey string stands for.
pub open spec fn hotkey_of_text(text: Seq<char>) -> ParsedHotkey {
    hotkey_of_normalized(normalized_hotkey(text))
}

/// The key that the key name `key_str` stands for; names are lowercase, and
/// an unknown or empty name gives the backquote key.
pub fn parse_key(key_str: &str) -> (k: KeyCode)
    ensures
        k == key_for(key_str@),
{
    let v = chars_of(key_str);
    key_for_chars(v.as_slice())
}

/// Reads one part into the modifiers and key name gathered so far.
fn read_part_exec(mods: &mut HotkeyModifiers, key: &mut Vec<char>, part: Vec<char>)
    ensures
        read_part((*old(mods), old(key)@), part@) == (*final(mods), final(key)@),
{
    if chars_match_str(part.as_slice(), "ctrl") || chars_match_str(part.as_slice(), "control") {
        mods.control = true;
    } else if chars_match_str(part.as_slice(), "alt") {
        mods.alt = true;
    } else if chars_match_str(part.as_slice(), "shift") {
        mods.shift = true;
    } else if chars_match_str(part.as_slice(), "cmd") || chars_match_str(part.as_slice(), "command")
        || chars_match_str(part.as_slice(), "win") || chars_match_str(part.as_slice(), "meta") {
        mods.meta = true;
    } else {
        *key = part;
    }
}

/// The hotkey that a normalized hotkey string (no spaces, lowercase) stands
/// for: modifier names anywhere among the `+`-separated parts add their
/// modifier, and the last other part names the key.
pub fn parse_normalized_hotkey(normalized: &str) -> (h: ParsedHotkey)
    ensures
        h == hotkey_of_normalized(normalized@),
{
    let s = chars_of(normalized);
    let ghost text = s@;
    let mut mods = HotkeyModifiers { control: false, alt: false, shift: false, meta: false };
    let mut key: Vec<char> = Vec::new();
    let mut current: Vec<char> = Vec::new();
    let mut i: usize = 0;
    proof {
        assert(text.take(0) =~= Seq::<char>::empty());
        assert(split_on(text.take(0), '+').drop_last() =~= Seq::<Seq<char>>::empty());
    }
    while i < s.len()
        invariant
            i <= text.len(),
            s@ == text,
            text == normalized@,
            split_on(text.take(i as int), '+').len() >= 1,
            (mods, key@) == read_parts(split_on(text.take(i as int), '+').drop_last()),
            current@ == split_on(text.take(i as int), '+').last(),
        decreases text.len() - i,
    {
        let c = s[i];
        let ghost prev = split_on(text.take(i as int), '+');
        proof {
            assert(text.take(i + 1).drop_last() =~= text.take(i as int));
            assert(text.take(i + 1).last() == c);
        }
        if c == '+' {
            let part = current;
            current = Vec::new();
            read_part_exec(&mut mods, &mut key, part);
            proof {
                let next = split_on(text.take(i + 1), '+');
                assert(next == prev.push(Seq::<char>::empty()));
                assert(next.drop_last() =~= prev);
                assert(prev =~= prev.drop_last().push(prev.last()));
            }
        } else {
            current.push(c);
            proof {
                let next = split_on(text.take(i + 1), '+');
                assert(next == prev.update(prev.len() - 1, prev.last().push(c)));
                assert(next.drop_last() =~= prev.drop_last());
            }
        }
        i = i + 1;
    }
    proof {
        assert(text.take(text.len() as int) =~= text);
        let parts = split_on(text, '+');
        assert(parts =~= parts.drop_last().push(parts.last()));
    }
    read_part_exec(&mut mods, &mut key, current);
    ParsedHotkey { modifiers: mods, key: key_for_chars(key.as_slice()) }
}

/// The normalized form of a hotkey string: spaces removed, then lowercased.
pub fn normalize_hotkey(text: &str) -> (r: String)
    ensures
        r@ == normalized_hotkey(text@),
{
    let compact = remove_spaces(text);
    lowercase(compact.as_str())
}

/// The modifiers and key that a hotkey string such as `"Ctrl+Shift+Q"`
/// stands for, read from its normalized form.
pub fn parse_hotkey_text(text: &str) -> (h: ParsedHotkey)
    ensures
        h == hotkey_of_text(text@),
{
    let normalized = normalize_hotkey(text);
    parse_normalized_hotkey(normalized.as_str())
}

#[verifier::external_type_specification]
#[verifier::external_body]
pub struct ExHotKey(HotKey);

/// What global-hotkey's `HotKey::new` builds from the modifiers control,
/// alt, shift and meta (each on or off) and the key whose W3C code name is
/// `key_name`.
pub uninterp spec fn global_hotkey_of(
    control: bool,
    alt: bool,
    shift: bool,
    meta: bool,
    key_name: Seq<char>,
) -> HotKey;

/// `HotKey::new` of global-hotkey, given the keyboard-types modifier set
/// with exactly the flags that are on (`Modifiers::set`) and the key that
/// `<Code as FromStr>::from_str` reads from `key_name`. Trusted: the result is
/// a function of these values alone, named `global_hotkey_of`; every W3C
/// name that `KeyCode::w3c_name` gives is one that keyboard-types reads, so
/// the key is found. Which hotkey value comes back is not stated further.
#[verifier::external_body]
fn hotkey_from_parts(control: bool, alt: bool, shift: bool, meta: bool, key_name: &str) -> (r:
    HotKey)
    requires
        exists|k: KeyCode| key_name@ == #[trigger] k.w3c_name_spec(),
    ensures
        r == global_hotkey_of(control, alt, shift, meta, key_name@),
{
    let mut mods = Modifiers::empty();
    mods.set(Modifiers::CONTROL, control);
    mods.set(Modifiers::ALT, alt);
    mods.set(Modifiers::SHIFT, shift);
    mods.set(Modifiers::META, meta);
    HotKey::new(Some(mods), key_name.parse::<Code>().unwrap())
}

/// The `global_hotkey` hotkey of a parsed hotkey.
pub open spec fn global_hotkey_for(h: ParsedHotkey) -> HotKey {
    global_hotkey_of(
        h.modifiers.control,
        h.modifiers.alt,
        h.modifiers.shift,
        h.modifiers.meta,
        h.key.w3c_name_spec(),
    )
}

/// The `global_hotkey` hotkey that a parsed hotkey stands for: the one built
/// from its modifiers and the W3C name of its key.
pub fn to_global_hotkey(h: &ParsedHotkey) -> (r: HotKey)
    ensures
        r == global_hotkey_for(*h),
{
    let name = h.key.w3c_name();
    proof {
        assert(name@ == h.key.w3c_name_spec());
    }
    hotkey_from_parts(h.modifiers.control, h.modifiers.alt, h.modifiers.shift, h.modifiers.meta, name)
}

/// The `global_hotkey` hotkey that a hotkey string such as `"Alt+Backquote"`
/// stands for; see `parse_hotkey_text` for how the string is read.
pub fn parse_hotkey(hotkey_str: &str) -> (r: HotKey)
    ensures
        r == global_hotkey_for(hotkey_of_text(hotkey_str@)),
{
    let h = parse_hotkey_text(hotkey_str);
    to_global_hotkey(&h)
}

/// Whether a part names the control modifier.
pub open spec fn names_control(part: Seq<char>) -> bool {
    part == "ctrl"@ || part == "control"@
}

/// Whether a part names the alt modifier.
pub open spec fn names_alt(part: Seq<char>) -> bool {
    part == "alt"@
}

/// Whether a part names the shift modifier.
pub open spec fn names_shift(part: Seq<char>) -> bool {
    part == "shift"@
}

/// Whether a part names the meta (Windows, command) modifier.
pub open spec fn names_meta(part: Seq<char>) -> bool {
    part == "cmd"@ || part == "command"@ || part == "win"@ || part == "meta"@
}

/// Whether a part names a modifier.
pub open spec fn names_modifier(part: Seq<char>) -> bool {
    names_control(part) || names_alt(part) || names_shift(part) || names_meta(part)
}

/// The last part that names no modifier, or the empty name if every part
/// names one.
pub open spec fn last_key_part(parts: Seq<Seq<char>>) -> Seq<char>
    decreases parts.len(),
{
    if parts.len() == 0 {
        Seq::<char>::empty()
    } else if !names_modifier(parts.last()) {
        parts.last()
    } else {
        last_key_part(parts.drop_last())
    }
}

/// No part names two different modifiers.
pub proof fn lemma_modifier_names_distinct()
    ensures
        forall|p: Seq<char>| names_meta(p) ==> !names_control(p) && !names_alt(p) && !names_shift(p),
        forall|p: Seq<char>| names_shift(p) ==> !names_control(p) && !names_alt(p),
        forall|p: Seq<char>| names_alt(p) ==> !names_control(p),
{
    reveal_strlit("ctrl");
    reveal_strlit("control");
    reveal_strlit("alt");
    reveal_strlit("shift");
    reveal_strlit("cmd");
    reveal_strlit("command");
    reveal_strlit("win");
    reveal_strlit("meta");
    assert("ctrl"@.len() == 4 && "ctrl"@[0] == 'c');
    assert("control"@.len() == 7 && "control"@[2] == 'n');
    assert("alt"@.len() == 3 && "alt"@[0] == 'a');
    assert("shift"@.len() == 5);
    assert("cmd"@.len() == 3 && "cmd"@[0] == 'c');
    assert("command"@.len() == 7 && "command"@[2] == 'm');
    assert("win"@.len() == 3 && "win"@[0] == 'w');
    assert("meta"@.len() == 4 && "meta"@[0] == 'm');
}

/// Reading the parts of a hotkey: a modifier is on exactly when some part
/// names it, wherever it stands, and the key is named by the last part that
/// names no modifier. So the order of the modifiers does not matter, and a
/// later key name replaces an earlier one.
pub proof fn lemma_read_parts_characterized(parts: Seq<Seq<char>>)
    ensures
        read_parts(parts).0.control == (exists|i: int|
            0 <= i < parts.len() && names_control(#[trigger] parts[i])),
        read_parts(parts).0.alt == (exists|i: int| 0 <= i < parts.len() && names_alt(#[trigger] parts[i])),
        read_parts(parts).0.shift == (exists|i: int|
            0 <= i < parts.len() && names_shift(#[trigger] parts[i])),
        read_parts(parts).0.meta == (exists|i: int| 0 <= i < parts.len() && names_meta(#[trigger] parts[i])),
        read_parts(parts).1 == last_key_part(parts),
    decreases parts.len(),
{
    if parts.len() > 0 {
        lemma_modifier_names_distinct();
        let init = parts.drop_last();
        lemma_read_parts_characterized(init);
        let last = parts.last();
        assert(parts[parts.len() - 1] == last);
        assert forall|i: int| 0 <= i < init.len() implies #[trigger] init[i] == parts[i] by {}
        if exists|i: int| 0 <= i < init.len() && names_control(#[trigger] init[i]) {
            let i = choose|i: int| 0 <= i < init.len() && names_control(#[trigger] init[i]);
            assert(names_control(parts[i]));
        }
        if exists|i: int| 0 <= i < init.len() && names_alt(#[trigger] init[i]) {
            let i = choose|i: int| 0 <= i < init.len() && names_alt(#[trigger] init[i]);
            assert(names_alt(parts[i]));
        }
        if exists|i: int| 0 <= i < init.len() && names_shift(#[trigger] init[i]) {
            let i = choose|i: int| 0 <= i < init.len() && names_shift(#[trigger] init[i]);
            assert(names_shift(parts[i]));
        }
        if exists|i: int| 0 <= i < init.len() && names_meta(#[trigger] init[i]) {
            let i = choose|i: int| 0 <= i < init.len() && names_meta(#[trigger] init[i]);
            assert(names_meta(parts[i]));
        }
        if exists|i: int| 0 <= i < parts.len() && names_control(#[trigger] parts[i]) {
            let i = choose|i: int| 0 <= i < parts.len() && names_control(#[trigger] parts[i]);
            if i < init.len() {
                assert(names_control(init[i]));
            }
        }
        if exists|i: int| 0 <= i < parts.len() && names_alt(#[trigger] parts[i]) {
            let i = choose|i: int| 0 <= i < parts.len() && names_alt(#[trigger] parts[i]);
            if i < init.len() {
                assert(names_alt(init[i]));
            }
        }
        if exists|i: int| 0 <= i < parts.len() && names_shift(#[trigger] parts[i]) {
            let i = choose|i: int| 0 <= i < parts.len() && names_shift(#[trigger] parts[i]);
            if i < init.len() {
                assert(names_shift(init[i]));
            }
        }
        if exists|i: int| 0 <= i < parts.len() && names_meta(#[trigger] parts[i]) {
            let i = choose|i: int| 0 <= i < parts.len() && names_meta(#[trigger] parts[i]);
            if i < init.len() {
                assert(names_meta(init[i]));
            }
        }
    }
}

/// Reading a normalized hotkey string: a modifier is on exactly when one of
/// the `+`-separated parts names it, in any order, and the key is the one
/// that the last part naming no modifier stands for (the backquote key when
/// there is none).
pub proof fn lemma_hotkey_of_normalized(n: Seq<char>)
    ensures
        hotkey_of_normalized(n).modifiers.control == (exists|i: int|
            0 <= i < split_on(n, '+').len() && names_control(#[trigger] split_on(n, '+')[i])),
        hotkey_of_normalized(n).modifiers.alt == (exists|i: int|
            0 <= i < split_on(n, '+').len() && names_alt(#[trigger] split_on(n, '+')[i])),
        hotkey_of_normalized(n).modifiers.shift == (exists|i: int|
            0 <= i < split_on(n, '+').len() && names_shift(#[trigger] split_on(n, '+')[i])),
        hotkey_of_normalized(n).modifiers.meta == (exists|i: int|
            0 <= i < split_on(n, '+').len() && names_meta(#[trigger] split_on(n, '+')[i])),
        hotkey_of_normalized(n).key == key_for(last_key_part(split_on(n, '+'))),
{
    lemma_read_parts_characterized(split_on(n, '+'));
}

/// Normalizing an ASCII hotkey string a second time changes nothing, so the
/// string and its normalized form stand for the same hotkey (and give the
/// same `global_hotkey` hotkey).
pub proof fn lemma_normalizing_twice(text: Seq<char>)
    requires
        is_ascii_chars(text),
    ensures
        normalized_hotkey(normalized_hotkey(text)) == normalized_hotkey(text),
        hotkey_of_text(normalized_hotkey(text)) == hotkey_of_text(text),
        global_hotkey_for(hotkey_of_text(normalized_hotkey(text))) == global_hotkey_for(
            hotkey_of_text(text),
        ),
{
    let w = without_char(text, ' ');
    lemma_without_char_facts(text, ' ');
    let n = ascii_lowercase(w);
    assert(normalized_hotkey(text) == n);
    lemma_ascii_lowercase_idempotent(w);
    assert forall|i: int| 0 <= i < n.len() implies #[trigger] n[i] != ' ' by {
        assert(w[i] != ' ');
    }
    lemma_without_absent_char(n, ' ');
}

/// A piece with no separator in it, put after a separator, becomes one more
/// part.
pub proof fn lemma_split_on_append(a: Seq<char>, sep: char, b: Seq<char>)
    requires
        forall|i: int| 0 <= i < b.len() ==> #[trigger] b[i] != sep,
    ensures
        split_on(a.push(sep) + b, sep) == split_on(a, sep).push(b),
    decreases b.len(),
{
    if b.len() == 0 {
        assert(a.push(sep) + b =~= a.push(sep));
        assert(a.push(sep).drop_last() =~= a);
        assert(b =~= Seq::<char>::empty());
    } else {
        let s = a.push(sep) + b;
        let b0 = b.drop_last();
        assert forall|i: int| 0 <= i < b0.len() implies #[trigger] b0[i] != sep by {
            assert(b0[i] == b[i]);
        }
        lemma_split_on_append(a, sep, b0);
        assert(s.drop_last() =~= a.push(sep) + b0);
        assert(s.last() == b[b.len() - 1]);
        assert(s.last() != sep);
        let prev = split_on(a, sep).push(b0);
        assert(split_on(s.drop_last(), sep) == prev);
        assert(split_on(s, sep) == prev.update(prev.len() - 1, prev.last().push(s.last())));
        assert(prev.update(prev.len() - 1, prev.last().push(s.last())) =~= split_on(a, sep).push(b)) by {
            assert(b0.push(b.last()) =~= b);
        }
    }
}

/// A string with no separator in it is a single part.
pub proof fn lemma_split_on_single(s: Seq<char>, sep: char)
    requires
        forall|i: int| 0 <= i < s.len() ==> #[trigger] s[i] != sep,
    ensures
        split_on(s, sep) == seq![s],
    decreases s.len(),
{
    if s.len() > 0 {
        let s0 = s.drop_last();
        assert forall|i: int| 0 <= i < s0.len() implies #[trigger] s0[i] != sep by {
            assert(s0[i] == s[i]);
        }
        lemma_split_on_single(s0, sep);
        assert(s[s.len() - 1] == s.last());
        assert(s0.push(s.last()) =~= s);
        assert(seq![s0].update(0, s0.push(s.last())) =~= seq![s]);
    } else {
        assert(s =~= Seq::<char>::empty());
    }
}

/// The default hotkey string `Alt+Backquote` stands for the alt modifier
/// with the backquote key, and `parse_hotkey` turns it into the hotkey that
/// global-hotkey builds from alt alone and the key named `Backquote`.
pub proof fn lemma_default_hotkey()
    ensures
        hotkey_of_text("Alt+Backquote"@) == (ParsedHotkey {
            modifiers: HotkeyModifiers { control: false, alt: true, shift: false, meta: false },
            key: KeyCode::Backquote,
        }),
        global_hotkey_for(hotkey_of_text("Alt+Backquote"@)) == global_hotkey_of(
            false,
            true,
            false,
            false,
            "Backquote"@,
        ),
{
    reveal_strlit("Alt+Backquote");
    reveal_strlit("alt");
    reveal_strlit("backquote");
    let t = "Alt+Backquote"@;
    assert(is_ascii_chars(t));
    assert forall|i: int| 0 <= i < t.len() implies #[trigger] t[i] != ' ' by {}
    lemma_without_absent_char(t, ' ');
    let n = ascii_lowercase(t);
    let alt = seq!['a', 'l', 't'];
    let key = seq!['b', 'a', 'c', 'k', 'q', 'u', 'o', 't', 'e'];
    assert(n =~= alt.push('+') + key);
    assert(alt =~= "alt"@);
    assert(key =~= "backquote"@);
    lemma_split_on_single(alt, '+');
    lemma_split_on_append(alt, '+', key);
    let parts = split_on(n, '+');
    assert(parts == seq![alt, key]);
    assert(without_char(t, ' ') == t);
    assert(lowered(t) == n);
    assert(normalized_hotkey(t) == n);
    assert(parts.drop_last() =~= seq![alt]);
    assert(seq![alt].drop_last() =~= Seq::<Seq<char>>::empty());
    let first = read_parts(seq![alt]);
    assert(read_parts(Seq::<Seq<char>>::empty()) == (no_modifiers(), Seq::<char>::empty()));
    assert(seq![alt].last() == alt);
    assert(read_parts(seq![alt].drop_last()) == (no_modifiers(), Seq::<char>::empty()));
    assert(first == read_part((no_modifiers(), Seq::<char>::empty()), alt));
    lemma_modifier_names_distinct();
    assert(names_alt(alt));
    assert(first == (HotkeyModifiers { control: false, alt: true, shift: false, meta: false },
        Seq::<char>::empty()));
    assert(!names_modifier(key)) by {
        reveal_strlit("ctrl");
        reveal_strlit("control");
        reveal_strlit("shift");
        reveal_strlit("cmd");
        reveal_strlit("command");
        reveal_strlit("win");
        reveal_strlit("meta");
        assert(key.len() == 9);
    }
    assert(read_parts(parts) == read_part(first, key));
    assert(read_parts(parts) == (first.0, key));
    assert(key_for(key) == KeyCode::Backquote);
}

/// What the key names that `key_for` compares with hold, char by char.
proof fn lemma_key_name_literals()
    ensures
        "backquote"@ == seq!['b', 'a', 'c', 'k', 'q', 'u', 'o', 't', 'e'],
        "`"@ == seq!['`'],
        "~"@ == seq!['~'],
        "tab"@ == seq!['t', 'a', 'b'],
        "enter"@ == seq!['e', 'n', 't', 'e', 'r'],
        "return"@ == seq!['r', 'e', 't', 'u', 'r', 'n'],
        "space"@ == seq!['s', 'p', 'a', 'c', 'e'],
        "esc"@ == seq!['e', 's', 'c'],
        "escape"@ == seq!['e', 's', 'c', 'a', 'p', 'e'],
        "backspace"@ == seq!['b', 'a', 'c', 'k', 's', 'p', 'a', 'c', 'e'],
        "delete"@ == seq!['d', 'e', 'l', 'e', 't', 'e'],
        "del"@ == seq!['d', 'e', 'l'],
        "up"@ == seq!['u', 'p'],
        "down"@ == seq!['d', 'o', 'w', 'n'],
        "left"@ == seq!['l', 'e', 'f', 't'],
        "right"@ == seq!['r', 'i', 'g', 'h', 't'],
        "home"@ == seq!['h', 'o', 'm', 'e'],
        "end"@ == seq!['e', 'n', 'd'],
        "pageup"@ == seq!['p', 'a', 'g', 'e', 'u', 'p'],
        "pagedown"@ == seq!['p', 'a', 'g', 'e', 'd', 'o', 'w', 'n'],
        "0"@ == seq!['0'],
        "1"@ == seq!['1'],
        "2"@ == seq!['2'],
        "3"@ == seq!['3'],
        "4"@ == seq!['4'],
        "5"@ == seq!['5'],
        "6"@ == seq!['6'],
        "7"@ == seq!['7'],
        "8"@ == seq!['8'],
        "9"@ == seq!['9'],
        "a"@ == seq!['a'],
        "b"@ == seq!['b'],
        "c"@ == seq!['c'],
        "d"@ == seq!['d'],
        "e"@ == seq!['e'],
        "f"@ == seq!['f'],
        "g"@ == seq!['g'],
        "h"@ == seq!['h'],
        "i"@ == seq!['i'],
        "j"@ == seq!['j'],
        "k"@ == seq!['k'],
        "l"@ == seq!['l'],
        "m"@ == seq!['m'],
        "n"@ == seq!['n'],
        "o"@ == seq!['o'],
        "p"@ == seq!['p'],
        "q"@ == seq!['q'],
        "r"@ == seq!['r'],
        "s"@ == seq!['s'],
        "t"@ == seq!['t'],
        "u"@ == seq!['u'],
        "v"@ == seq!['v'],
        "w"@ == seq!['w'],
        "x"@ == seq!['x'],
        "y"@ == seq!['y'],
        "z"@ == seq!['z'],
        "f1"@ == seq!['f', '1'],
        "f2"@ == seq!['f', '2'],
        "f3"@ == seq!['f', '3'],
        "f4"@ == seq!['f', '4'],
        "f5"@ == seq!['f', '5'],
        "f6"@ == seq!['f', '6'],
        "f7"@ == seq!['f', '7'],
        "f8"@ == seq!['f', '8'],
        "f9"@ == seq!['f', '9'],
        "f10"@ == seq!['f', '1', '0'],
        "f11"@ == seq!['f', '1', '1'],
        "f12"@ == seq!['f', '1', '2'],
{
    reveal_strlit("backquote");
    reveal_strlit("`");
    reveal_strlit("~");
    reveal_strlit("tab");
    reveal_strlit("enter");
    reveal_strlit("return");
    reveal_strlit("space");
    reveal_strlit("esc");
    reveal_strlit("escape");
    reveal_strlit("backspace");
    reveal_strlit("delete");
    reveal_strlit("del");
    reveal_strlit("up");
    reveal_strlit("down");
    reveal_strlit("left");
    reveal_strlit("right");
    reveal_strlit("home");
    reveal_strlit("end");
    reveal_strlit("pageup");
    reveal_strlit("pagedown");
    reveal_strlit("0");
    reveal_strlit("1");
    reveal_strlit("2");
    reveal_strlit("3");
    reveal_strlit("4");
    reveal_strlit("5");
    reveal_strlit("6");
    reveal_strlit("7");
    reveal_strlit("8");
    reveal_strlit("9");
    reveal_strlit("a");
    reveal_strlit("b");
    reveal_strlit("c");
    reveal_strlit("d");
    reveal_strlit("e");
    reveal_strlit("f");
    reveal_strlit("g");
    reveal_strlit("h");
    reveal_strlit("i");
    reveal_strlit("j");
    reveal_strlit("k");
    reveal_strlit("l");
    reveal_strlit("m");
    reveal_strlit("n");
    reveal_strlit("o");
    reveal_strlit("p");
    reveal_strlit("q");
    reveal_strlit("r");
    reveal_strlit("s");
    reveal_strlit("t");
    reveal_strlit("u");
    reveal_strlit("v");
    reveal_strlit("w");
    reveal_strlit("x");
    reveal_strlit("y");
    reveal_strlit("z");
    reveal_strlit("f1");
    reveal_strlit("f2");
    reveal_strlit("f3");
    reveal_strlit("f4");
    reveal_strlit("f5");
    reveal_strlit("f6");
    reveal_strlit("f7");
    reveal_strlit("f8");
    reveal_strlit("f9");
    reveal_strlit("f10");
    reveal_strlit("f11");
    reveal_strlit("f12");
    assert("backquote"@ =~= seq!['b', 'a', 'c', 'k', 'q', 'u', 'o', 't', 'e']);
    assert("`"@ =~= seq!['`']);
    assert("~"@ =~= seq!['~']);
    assert("tab"@ =~= seq!['t', 'a', 'b']);
    assert("enter"@ =~= seq!['e', 'n', 't', 'e', 'r']);
    assert("return"@ =~= seq!['r', 'e', 't', 'u', 'r', 'n']);
    assert("space"@ =~= seq!['s', 'p', 'a', 'c', 'e']);
    assert("esc"@ =~= seq!['e', 's', 'c']);
    assert("escape"@ =~= seq!['e', 's', 'c', 'a', 'p', 'e']);
    assert("backspace"@ =~= seq!['b', 'a', 'c', 'k', 's', 'p', 'a', 'c', 'e']);
    assert("delete"@ =~= seq!['d', 'e', 'l', 'e', 't', 'e']);
    assert("del"@ =~= seq!['d', 'e', 'l']);
    assert("up"@ =~= seq!['u', 'p']);
    assert("down"@ =~= seq!['d', 'o', 'w', 'n']);
    assert("left"@ =~= seq!['l', 'e', 'f', 't']);
    assert("right"@ =~= seq!['r', 'i', 'g', 'h', 't']);
    assert("home"@ =~= seq!['h', 'o', 'm', 'e']);
    assert("end"@ =~= seq!['e', 'n', 'd']);
    assert("pageup"@ =~= seq!['p', 'a', 'g', 'e', 'u', 'p']);
    assert("pagedown"@ =~= seq!['p', 'a', 'g', 'e', 'd', 'o', 'w', 'n']);
    assert("0"@ =~= seq!['0']);
    assert("1"@ =~= seq!['1']);
    assert("2"@ =~= seq!['2']);
    assert("3"@ =~= seq!['3']);
    assert("4"@ =~= seq!['4']);
    assert("5"@ =~= seq!['5']);
    assert("6"@ =~= seq!['6']);
    assert("7"@ =~= seq!['7']);
    assert("8"@ =~= seq!['8']);
    assert("9"@ =~= seq!['9']);
    assert("a"@ =~= seq!['a']);
    assert("b"@ =~= seq!['b']);
    assert("c"@ =~= seq!['c']);
    assert("d"@ =~= seq!['d']);
    assert("e"@ =~= seq!['e']);
    assert("f"@ =~= seq!['f']);
    assert("g"@ =~= seq!['g']);
    assert("h"@ =~= seq!['h']);
    assert("i"@ =~= seq!['i']);
    assert("j"@ =~= seq!['j']);
    assert("k"@ =~= seq!['k']);
    assert("l"@ =~= seq!['l']);
    assert("m"@ =~= seq!['m']);
    assert("n"@ =~= seq!['n']);
    assert("o"@ =~= seq!['o']);
    assert("p"@ =~= seq!['p']);
    assert("q"@ =~= seq!['q']);
    assert("r"@ =~= seq!['r']);
    assert("s"@ =~= seq!['s']);
    assert("t"@ =~= seq!['t']);
    assert("u"@ =~= seq!['u']);
    assert("v"@ =~= seq!['v']);
    assert("w"@ =~= seq!['w']);
    assert("x"@ =~= seq!['x']);
    assert("y"@ =~= seq!['y']);
    assert("z"@ =~= seq!['z']);
    assert("f1"@ =~= seq!['f', '1']);
    assert("f2"@ =~= seq!['f', '2']);
    assert("f3"@ =~= seq!['f', '3']);
    assert("f4"@ =~= seq!['f', '4']);
    assert("f5"@ =~= seq!['f', '5']);
    assert("f6"@ =~= seq!['f', '6']);
    assert("f7"@ =~= seq!['f', '7']);
    assert("f8"@ =~= seq!['f', '8']);
    assert("f9"@ =~= seq!['f', '9']);
    assert("f10"@ =~= seq!['f', '1', '0']);
    assert("f11"@ =~= seq!['f', '1', '1']);
    assert("f12"@ =~= seq!['f', '1', '2']);
}

/// How a name of one character compares with the key names of one character.
proof fn lemma_single_char_names(c: char)
    ensures
        (seq![c] == "`"@) == (c == '`'),
        (seq![c] == "~"@) == (c == '~'),
        (seq![c] == "0"@) == (c == '0'),
        (seq![c] == "1"@) == (c == '1'),
        (seq![c] == "2"@) == (c == '2'),
        (seq![c] == "3"@) == (c == '3'),
        (seq![c] == "4"@) == (c == '4'),
        (seq![c] == "5"@) == (c == '5'),
        (seq![c] == "6"@) == (c == '6'),
        (seq![c] == "7"@) == (c == '7'),
        (seq![c] == "8"@) == (c == '8'),
        (seq![c] == "9"@) == (c == '9'),
        (seq![c] == "a"@) == (c == 'a'),
        (seq![c] == "b"@) == (c == 'b'),
        (seq![c] == "c"@) == (c == 'c'),
        (seq![c] == "d"@) == (c == 'd'),
        (seq![c] == "e"@) == (c == 'e'),
        (seq![c] == "f"@) == (c == 'f'),
        (seq![c] == "g"@) == (c == 'g'),
        (seq![c] == "h"@) == (c == 'h'),
        (seq![c] == "i"@) == (c == 'i'),
        (seq![c] == "j"@) == (c == 'j'),
        (seq![c] == "k"@) == (c == 'k'),
        (seq![c] == "l"@) == (c == 'l'),
        (seq![c] == "m"@) == (c == 'm'),
        (seq![c] == "n"@) == (c == 'n'),
        (seq![c] == "o"@) == (c == 'o'),
        (seq![c] == "p"@) == (c == 'p'),
        (seq![c] == "q"@) == (c == 'q'),
        (seq![c] == "r"@) == (c == 'r'),
        (seq![c] == "s"@) == (c == 's'),
        (seq![c] == "t"@) == (c == 't'),
        (seq![c] == "u"@) == (c == 'u'),
        (seq![c] == "v"@) == (c == 'v'),
        (seq![c] == "w"@) == (c == 'w'),
        (seq![c] == "x"@) == (c == 'x'),
        (seq![c] == "y"@) == (c == 'y'),
        (seq![c] == "z"@) == (c == 'z'),
{
    lemma_key_name_literals();
    assert(seq![c].len() == 1 && seq![c][0] == c);
    assert((seq![c] == "`"@) == (c == '`'));
    assert((seq![c] == "~"@) == (c == '~'));
    assert((seq![c] == "0"@) == (c == '0'));
    assert((seq![c] == "1"@) == (c == '1'));
    assert((seq![c] == "2"@) == (c == '2'));
    assert((seq![c] == "3"@) == (c == '3'));
    assert((seq![c] == "4"@) == (c == '4'));
    assert((seq![c] == "5"@) == (c == '5'));
    assert((seq![c] == "6"@) == (c == '6'));
    assert((seq![c] == "7"@) == (c == '7'));
    assert((seq![c] == "8"@) == (c == '8'));
    assert((seq![c] == "9"@) == (c == '9'));
    assert((seq![c] == "a"@) == (c == 'a'));
    assert((seq![c] == "b"@) == (c == 'b'));
    assert((seq![c] == "c"@) == (c == 'c'));
    assert((seq![c] == "d"@) == (c == 'd'));
    assert((seq![c] == "e"@) == (c == 'e'));
    assert((seq![c] == "f"@) == (c == 'f'));
    assert((seq![c] == "g"@) == (c == 'g'));
    assert((seq![c] == "h"@) == (c == 'h'));
    assert((seq![c] == "i"@) == (c == 'i'));
    assert((seq![c] == "j"@) == (c == 'j'));
    assert((seq![c] == "k"@) == (c == 'k'));
    assert((seq![c] == "l"@) == (c == 'l'));
    assert((seq![c] == "m"@) == (c == 'm'));
    assert((seq![c] == "n"@) == (c == 'n'));
    assert((seq![c] == "o"@) == (c == 'o'));
    assert((seq![c] == "p"@) == (c == 'p'));
    assert((seq![c] == "q"@) == (c == 'q'));
    assert((seq![c] == "r"@) == (c == 'r'));
    assert((seq![c] == "s"@) == (c == 's'));
    assert((seq![c] == "t"@) == (c == 't'));
    assert((seq![c] == "u"@) == (c == 'u'));
    assert((seq![c] == "v"@) == (c == 'v'));
    assert((seq![c] == "w"@) == (c == 'w'));
    assert((seq![c] == "x"@) == (c == 'x'));
    assert((seq![c] == "y"@) == (c == 'y'));
    assert((seq![c] == "z"@) == (c == 'z'));
}

/// What the W3C names of all keys hold, char by char.
proof fn lemma_w3c_name_literals()
    ensures
        KeyCode::Backquote.w3c_name_spec() == seq!['B', 'a', 'c', 'k', 'q', 'u', 'o', 't', 'e'],
        KeyCode::Tab.w3c_name_spec() == seq!['T', 'a', 'b'],
        KeyCode::Enter.w3c_name_spec() == seq!['E', 'n', 't', 'e', 'r'],
        KeyCode::Space.w3c_name_spec() == seq!['S', 'p', 'a', 'c', 'e'],
        KeyCode::Escape.w3c_name_spec() == seq!['E', 's', 'c', 'a', 'p', 'e'],
        KeyCode::Backspace.w3c_name_spec() == seq!['B', 'a', 'c', 'k', 's', 'p', 'a', 'c', 'e'],
        KeyCode::Delete.w3c_name_spec() == seq!['D', 'e', 'l', 'e', 't', 'e'],
        KeyCode::ArrowUp.w3c_name_spec() == seq!['A', 'r', 'r', 'o', 'w', 'U', 'p'],
        KeyCode::ArrowDown.w3c_name_spec() == seq!['A', 'r', 'r', 'o', 'w', 'D', 'o', 'w', 'n'],
        KeyCode::ArrowLeft.w3c_name_spec() == seq!['A', 'r', 'r', 'o', 'w', 'L', 'e', 'f', 't'],
        KeyCode::ArrowRight.w3c_name_spec() == seq!['A', 'r', 'r', 'o', 'w', 'R', 'i', 'g', 'h', 't'],
        KeyCode::Home.w3c_name_spec() == seq!['H', 'o', 'm', 'e'],
        KeyCode::End.w3c_name_spec() == seq!['E', 'n', 'd'],
        KeyCode::PageUp.w3c_name_spec() == seq!['P', 'a', 'g', 'e', 'U', 'p'],
        KeyCode::PageDown.w3c_name_spec() == seq!['P', 'a', 'g', 'e', 'D', 'o', 'w', 'n'],
        KeyCode::Digit0.w3c_name_spec() == seq!['D', 'i', 'g', 'i', 't', '0'],
        KeyCode::Digit1.w3c_name_spec() == seq!['D', 'i', 'g', 'i', 't', '1'],
        KeyCode::Digit2.w3c_name_spec() == seq!['D', 'i', 'g', 'i', 't', '2'],
        KeyCode::Digit3.w3c_name_spec() == seq!['D', 'i', 'g', 'i', 't', '3'],
        KeyCode::Digit4.w3c_name_spec() == seq!['D', 'i', 'g', 'i', 't', '4'],
        KeyCode::Digit5.w3c_name_spec() == seq!['D', 'i', 'g', 'i', 't', '5'],
        KeyCode::Digit6.w3c_name_spec() == seq!['D', 'i', 'g', 'i', 't', '6'],
        KeyCode::Digit7.w3c_name_spec() == seq!['D', 'i', 'g', 'i', 't', '7'],
        KeyCode::Digit8.w3c_name_spec() == seq!['D', 'i', 'g', 'i', 't', '8'],
        KeyCode::Digit9.w3c_name_spec() == seq!['D', 'i', 'g', 'i', 't', '9'],
        KeyCode::KeyA.w3c_name_spec() == seq!['K', 'e', 'y', 'A'],
        KeyCode::KeyB.w3c_name_spec() == seq!['K', 'e', 'y', 'B'],
        KeyCode::KeyC.w3c_name_spec() == seq!['K', 'e', 'y', 'C'],
        KeyCode::KeyD.w3c_name_spec() == seq!['K', 'e', 'y', 'D'],
        KeyCode::KeyE.w3c_name_spec() == seq!['K', 'e', 'y', 'E'],
        KeyCode::KeyF.w3c_name_spec() == seq!['K', 'e', 'y', 'F'],
        KeyCode::KeyG.w3c_name_spec() == seq!['K', 'e', 'y', 'G'],
        KeyCode::KeyH.w3c_name_spec() == seq!['K', 'e', 'y', 'H'],
        KeyCode::KeyI.w3c_name_spec() == seq!['K', 'e', 'y', 'I'],
        KeyCode::KeyJ.w3c_name_spec() == seq!['K', 'e', 'y', 'J'],
        KeyCode::KeyK.w3c_name_spec() == seq!['K', 'e', 'y', 'K'],
        KeyCode::KeyL.w3c_name_spec() == seq!['K', 'e', 'y', 'L'],
        KeyCode::KeyM.w3c_name_spec() == seq!['K', 'e', 'y', 'M'],
        KeyCode::KeyN.w3c_name_spec() == seq!['K', 'e', 'y', 'N'],
        KeyCode::KeyO.w3c_name_spec() == seq!['K', 'e', 'y', 'O'],
        KeyCode::KeyP.w3c_name_spec() == seq!['K', 'e', 'y', 'P'],
        KeyCode::KeyQ.w3c_name_spec() == seq!['K', 'e', 'y', 'Q'],
        KeyCode::KeyR.w3c_name_spec() == seq!['K', 'e', 'y', 'R'],
        KeyCode::KeyS.w3c_name_spec() == seq!['K', 'e', 'y', 'S'],
        KeyCode::KeyT.w3c_name_spec() == seq!['K', 'e', 'y', 'T'],
        KeyCode::KeyU.w3c_name_spec() == seq!['K', 'e', 'y', 'U'],
        KeyCode::KeyV.w3c_name_spec() == seq!['K', 'e', 'y', 'V'],
        KeyCode::KeyW.w3c_name_spec() == seq!['K', 'e', 'y', 'W'],
        KeyCode::KeyX.w3c_name_spec() == seq!['K', 'e', 'y', 'X'],
        KeyCode::KeyY.w3c_name_spec() == seq!['K', 'e', 'y', 'Y'],
        KeyCode::KeyZ.w3c_name_spec() == seq!['K', 'e', 'y', 'Z'],
        KeyCode::F1.w3c_name_spec() == seq!['F', '1'],
        KeyCode::F2.w3c_name_spec() == seq!['F', '2'],
        KeyCode::F3.w3c_name_spec() == seq!['F', '3'],
        KeyCode::F4.w3c_name_spec() == seq!['F', '4'],
        KeyCode::F5.w3c_name_spec() == seq!['F', '5'],
        KeyCode::F6.w3c_name_spec() == seq!['F', '6'],
        KeyCode::F7.w3c_name_spec() == seq!['F', '7'],
        KeyCode::F8.w3c_name_spec() == seq!['F', '8'],
        KeyCode::F9.w3c_name_spec() == seq!['F', '9'],
        KeyCode::F10.w3c_name_spec() == seq!['F', '1', '0'],
        KeyCode::F11.w3c_name_spec() == seq!['F', '1', '1'],
        KeyCode::F12.w3c_name_spec() == seq!['F', '1', '2'],
{
    reveal_strlit("Backquote");
    reveal_strlit("Tab");
    reveal_strlit("Enter");
    reveal_strlit("Space");
    reveal_strlit("Escape");
    reveal_strlit("Backspace");
    reveal_strlit("Delete");
    reveal_strlit("ArrowUp");
    reveal_strlit("ArrowDown");
    reveal_strlit("ArrowLeft");
    reveal_strlit("ArrowRight");
    reveal_strlit("Home");
    reveal_strlit("End");
    reveal_strlit("PageUp");
    reveal_strlit("PageDown");
    reveal_strlit("Digit0");
    reveal_strlit("Digit1");
    reveal_strlit("Digit2");
    reveal_strlit("Digit3");
    reveal_strlit("Digit4");
    reveal_strlit("Digit5");
    reveal_strlit("Digit6");
    reveal_strlit("Digit7");
    reveal_strlit("Digit8");
    reveal_strlit("Digit9");
    reveal_strlit("KeyA");
    reveal_strlit("KeyB");
    reveal_strlit("KeyC");
    reveal_strlit("KeyD");
    reveal_strlit("KeyE");
    reveal_strlit("KeyF");
    reveal_strlit("KeyG");
    reveal_strlit("KeyH");
    reveal_strlit("KeyI");
    reveal_strlit("KeyJ");
    reveal_strlit("KeyK");
    reveal_strlit("KeyL");
    reveal_strlit("KeyM");
    reveal_strlit("KeyN");
    reveal_strlit("KeyO");
    reveal_strlit("KeyP");
    reveal_strlit("KeyQ");
    reveal_strlit("KeyR");
    reveal_strlit("KeyS");
    reveal_strlit("KeyT");
    reveal_strlit("KeyU");
    reveal_strlit("KeyV");
    reveal_strlit("KeyW");
    reveal_strlit("KeyX");
    reveal_strlit("KeyY");
    reveal_strlit("KeyZ");
    reveal_strlit("F1");
    reveal_strlit("F2");
    reveal_strlit("F3");
    reveal_strlit("F4");
    reveal_strlit("F5");
    reveal_strlit("F6");
    reveal_strlit("F7");
    reveal_strlit("F8");
    reveal_strlit("F9");
    reveal_strlit("F10");
    reveal_strlit("F11");
    reveal_strlit("F12");
    assert("Backquote"@ =~= seq!['B', 'a', 'c', 'k', 'q', 'u', 'o', 't', 'e']);
    assert("Tab"@ =~= seq!['T', 'a', 'b']);
    assert("Enter"@ =~= seq!['E', 'n', 't', 'e', 'r']);
    assert("Space"@ =~= seq!['S', 'p', 'a', 'c', 'e']);
    assert("Escape"@ =~= seq!['E', 's', 'c', 'a', 'p', 'e']);
    assert("Backspace"@ =~= seq!['B', 'a', 'c', 'k', 's', 'p', 'a', 'c', 'e']);
    assert("Delete"@ =~= seq!['D', 'e', 'l', 'e', 't', 'e']);
    assert("ArrowUp"@ =~= seq!['A', 'r', 'r', 'o', 'w', 'U', 'p']);
    assert("ArrowDown"@ =~= seq!['A', 'r', 'r', 'o', 'w', 'D', 'o', 'w', 'n']);
    assert("ArrowLeft"@ =~= seq!['A', 'r', 'r', 'o', 'w', 'L', 'e', 'f', 't']);
    assert("ArrowRight"@ =~= seq!['A', 'r', 'r', 'o', 'w', 'R', 'i', 'g', 'h', 't']);
    assert("Home"@ =~= seq!['H', 'o', 'm', 'e']);
    assert("End"@ =~= seq!['E', 'n', 'd']);
    assert("PageUp"@ =~= seq!['P', 'a', 'g', 'e', 'U', 'p']);
    assert("PageDown"@ =~= seq!['P', 'a', 'g', 'e', 'D', 'o', 'w', 'n']);
    assert("Digit0"@ =~= seq!['D', 'i', 'g', 'i', 't', '0']);
    assert("Digit1"@ =~= seq!['D', 'i', 'g', 'i', 't', '1']);
    assert("Digit2"@ =~= seq!['D', 'i', 'g', 'i', 't', '2']);
    assert("Digit3"@ =~= seq!['D', 'i', 'g', 'i', 't', '3']);
    assert("Digit4"@ =~= seq!['D', 'i', 'g', 'i', 't', '4']);
    assert("Digit5"@ =~= seq!['D', 'i', 'g', 'i', 't', '5']);
    assert("Digit6"@ =~= seq!['D', 'i', 'g', 'i', 't', '6']);
    assert("Digit7"@ =~= seq!['D', 'i', 'g', 'i', 't', '7']);
    assert("Digit8"@ =~= seq!['D', 'i', 'g', 'i', 't', '8']);
    assert("Digit9"@ =~= seq!['D', 'i', 'g', 'i', 't', '9']);
    assert("KeyA"@ =~= seq!['K', 'e', 'y', 'A']);
    assert("KeyB"@ =~= seq!['K', 'e', 'y', 'B']);
    assert("KeyC"@ =~= seq!['K', 'e', 'y', 'C']);
    assert("KeyD"@ =~= seq!['K', 'e', 'y', 'D']);
    assert("KeyE"@ =~= seq!['K', 'e', 'y', 'E']);
    assert("KeyF"@ =~= seq!['K', 'e', 'y', 'F']);
    assert("KeyG"@ =~= seq!['K', 'e', 'y', 'G']);
    assert("KeyH"@ =~= seq!['K', 'e', 'y', 'H']);
    assert("KeyI"@ =~= seq!['K', 'e', 'y', 'I']);
    assert("KeyJ"@ =~= seq!['K', 'e', 'y', 'J']);
    assert("KeyK"@ =~= seq!['K', 'e', 'y', 'K']);
    assert("KeyL"@ =~= seq!['K', 'e', 'y', 'L']);
    assert("KeyM"@ =~= seq!['K', 'e', 'y', 'M']);
    assert("KeyN"@ =~= seq!['K', 'e', 'y', 'N']);
    assert("KeyO"@ =~= seq!['K', 'e', 'y', 'O']);
    assert("KeyP"@ =~= seq!['K', 'e', 'y', 'P']);
    assert("KeyQ"@ =~= seq!['K', 'e', 'y', 'Q']);
    assert("KeyR"@ =~= seq!['K', 'e', 'y', 'R']);
    assert("KeyS"@ =~= seq!['K', 'e', 'y', 'S']);
    assert("KeyT"@ =~= seq!['K', 'e', 'y', 'T']);
    assert("KeyU"@ =~= seq!['K', 'e', 'y', 'U']);
    assert("KeyV"@ =~= seq!['K', 'e', 'y', 'V']);
    assert("KeyW"@ =~= seq!['K', 'e', 'y', 'W']);
    assert("KeyX"@ =~= seq!['K', 'e', 'y', 'X']);
    assert("KeyY"@ =~= seq!['K', 'e', 'y', 'Y']);
    assert("KeyZ"@ =~= seq!['K', 'e', 'y', 'Z']);
    assert("F1"@ =~= seq!['F', '1']);
    assert("F2"@ =~= seq!['F', '2']);
    assert("F3"@ =~= seq!['F', '3']);
    assert("F4"@ =~= seq!['F', '4']);
    assert("F5"@ =~= seq!['F', '5']);
    assert("F6"@ =~= seq!['F', '6']);
    assert("F7"@ =~= seq!['F', '7']);
    assert("F8"@ =~= seq!['F', '8']);
    assert("F9"@ =~= seq!['F', '9']);
    assert("F10"@ =~= seq!['F', '1', '0']);
    assert("F11"@ =~= seq!['F', '1', '1']);
    assert("F12"@ =~= seq!['F', '1', '2']);
}

/// Each single-letter key name stands for the key of that letter: the name
/// `s` gives the key whose W3C name is `KeyS`, and so on from `a` to `z`.
#[verifier::spinoff_prover]
pub proof fn lemma_letter_key_names(c: char)
    requires
        'a' <= c <= 'z',
    ensures
        key_for(seq![c]).w3c_name_spec() == seq!['K', 'e', 'y', ((c as int) - 32) as char],
{
    lemma_key_name_literals();
    lemma_w3c_name_literals();
    assert(seq![c].len() == 1 && seq![c][0] == c);
    assert((seq![c] == "`"@) == (c == '`'));
    assert((seq![c] == "~"@) == (c == '~'));
    assert((seq![c] == "0"@) == (c == '0'));
    assert((seq![c] == "1"@) == (c == '1'));
    assert((seq![c] == "2"@) == (c == '2'));
    assert((seq![c] == "3"@) == (c == '3'));
    assert((seq![c] == "4"@) == (c == '4'));
    assert((seq![c] == "5"@) == (c == '5'));
    assert((seq![c] == "6"@) == (c == '6'));
    assert((seq![c] == "7"@) == (c == '7'));
    assert((seq![c] == "8"@) == (c == '8'));
    assert((seq![c] == "9"@) == (c == '9'));
    assert((seq![c] == "a"@) == (c == 'a'));
    assert((seq![c] == "b"@) == (c == 'b'));
    assert((seq![c] == "c"@) == (c == 'c'));
    assert((seq![c] == "d"@) == (c == 'd'));
    assert((seq![c] == "e"@) == (c == 'e'));
    assert((seq![c] == "f"@) == (c == 'f'));
    assert((seq![c] == "g"@) == (c == 'g'));
    assert((seq![c] == "h"@) == (c == 'h'));
    assert((seq![c] == "i"@) == (c == 'i'));
    assert((seq![c] == "j"@) == (c == 'j'));
    assert((seq![c] == "k"@) == (c == 'k'));
    assert((seq![c] == "l"@) == (c == 'l'));
    assert((seq![c] == "m"@) == (c == 'm'));
    assert((seq![c] == "n"@) == (c == 'n'));
    assert((seq![c] == "o"@) == (c == 'o'));
    assert((seq![c] == "p"@) == (c == 'p'));
    assert((seq![c] == "q"@) == (c == 'q'));
    assert((seq![c] == "r"@) == (c == 'r'));
    assert((seq![c] == "s"@) == (c == 's'));
    assert((seq![c] == "t"@) == (c == 't'));
    assert((seq![c] == "u"@) == (c == 'u'));
    assert((seq![c] == "v"@) == (c == 'v'));
    assert((seq![c] == "w"@) == (c == 'w'));
    assert((seq![c] == "x"@) == (c == 'x'));
    assert((seq![c] == "y"@) == (c == 'y'));
    assert((seq![c] == "z"@) == (c == 'z'));
    if c == 'a' {
        assert(key_for(seq![c]) == KeyCode::KeyA);
    } else if c == 'b' {
        assert(key_for(seq![c]) == KeyCode::KeyB);
    } else if c == 'c' {
        assert(key_for(seq![c]) == KeyCode::KeyC);
    } else if c == 'd' {
        assert(key_for(seq![c]) == KeyCode::KeyD);
    } else if c == 'e' {
        assert(key_for(seq![c]) == KeyCode::KeyE);
    } else if c == 'f' {
        assert(key_for(seq![c]) == KeyCode::KeyF);
    } else if c == 'g' {
        assert(key_for(seq![c]) == KeyCode::KeyG);
    } else if c == 'h' {
        assert(key_for(seq![c]) == KeyCode::KeyH);
    } else if c == 'i' {
        assert(key_for(seq![c]) == KeyCode::KeyI);
    } else if c == 'j' {
        assert(key_for(seq![c]) == KeyCode::KeyJ);
    } else if c == 'k' {
        assert(key_for(seq![c]) == KeyCode::KeyK);
    } else if c == 'l' {
        assert(key_for(seq![c]) == KeyCode::KeyL);
    } else if c == 'm' {
        assert(key_for(seq![c]) == KeyCode::KeyM);
    } else if c == 'n' {
        assert(key_for(seq![c]) == KeyCode::KeyN);
    } else if c == 'o' {
        assert(key_for(seq![c]) == KeyCode::KeyO);
    } else if c == 'p' {
        assert(key_for(seq![c]) == KeyCode::KeyP);
    } else if c == 'q' {
        assert(key_for(seq![c]) == KeyCode::KeyQ);
    } else if c == 'r' {
        assert(key_for(seq![c]) == KeyCode::KeyR);
    } else if c == 's' {
        assert(key_for(seq![c]) == KeyCode::KeyS);
    } else if c == 't' {
        assert(key_for(seq![c]) == KeyCode::KeyT);
    } else if c == 'u' {
        assert(key_for(seq![c]) == KeyCode::KeyU);
    } else if c == 'v' {
        assert(key_for(seq![c]) == KeyCode::KeyV);
    } else if c == 'w' {
        assert(key_for(seq![c]) == KeyCode::KeyW);
    } else if c == 'x' {
        assert(key_for(seq![c]) == KeyCode::KeyX);
    } else if c == 'y' {
        assert(key_for(seq![c]) == KeyCode::KeyY);
    } else if c == 'z' {
        assert(key_for(seq![c]) == KeyCode::KeyZ);
    }
}

/// Each single-digit key name stands for the key of that digit: the name
/// `7` gives the key whose W3C name is `Digit7`, and so on from `0` to `9`.
#[verifier::spinoff_prover]
pub proof fn lemma_digit_key_names(c: char)
    requires
        '0' <= c <= '9',
    ensures
        key_for(seq![c]).w3c_name_spec() == seq!['D', 'i', 'g', 'i', 't', c],
{
    lemma_key_name_literals();
    lemma_w3c_name_literals();
    assert(seq![c].len() == 1 && seq![c][0] == c);
    assert((seq![c] == "`"@) == (c == '`'));
    assert((seq![c] == "~"@) == (c == '~'));
    assert((seq![c] == "0"@) == (c == '0'));
    assert((seq![c] == "1"@) == (c == '1'));
    assert((seq![c] == "2"@) == (c == '2'));
    assert((seq![c] == "3"@) == (c == '3'));
    assert((seq![c] == "4"@) == (c == '4'));
    assert((seq![c] == "5"@) == (c == '5'));
    assert((seq![c] == "6"@) == (c == '6'));
    assert((seq![c] == "7"@) == (c == '7'));
    assert((seq![c] == "8"@) == (c == '8'));
    assert((seq![c] == "9"@) == (c == '9'));
    assert((seq![c] == "a"@) == (c == 'a'));
    assert((seq![c] == "b"@) == (c == 'b'));
    assert((seq![c] == "c"@) == (c == 'c'));
    assert((seq![c] == "d"@) == (c == 'd'));
    assert((seq![c] == "e"@) == (c == 'e'));
    assert((seq![c] == "f"@) == (c == 'f'));
    assert((seq![c] == "g"@) == (c == 'g'));
    assert((seq![c] == "h"@) == (c == 'h'));
    assert((seq![c] == "i"@) == (c == 'i'));
    assert((seq![c] == "j"@) == (c == 'j'));
    assert((seq![c] == "k"@) == (c == 'k'));
    assert((seq![c] == "l"@) == (c == 'l'));
    assert((seq![c] == "m"@) == (c == 'm'));
    assert((seq![c] == "n"@) == (c == 'n'));
    assert((seq![c] == "o"@) == (c == 'o'));
    assert((seq![c] == "p"@) == (c == 'p'));
    assert((seq![c] == "q"@) == (c == 'q'));
    assert((seq![c] == "r"@) == (c == 'r'));
    assert((seq![c] == "s"@) == (c == 's'));
    assert((seq![c] == "t"@) == (c == 't'));
    assert((seq![c] == "u"@) == (c == 'u'));
    assert((seq![c] == "v"@) == (c == 'v'));
    assert((seq![c] == "w"@) == (c == 'w'));
    assert((seq![c] == "x"@) == (c == 'x'));
    assert((seq![c] == "y"@) == (c == 'y'));
    assert((seq![c] == "z"@) == (c == 'z'));
    if c == '0' {
        assert(key_for(seq![c]) == KeyCode::Digit0);
    } else if c == '1' {
        assert(key_for(seq![c]) == KeyCode::Digit1);
    } else if c == '2' {
        assert(key_for(seq![c]) == KeyCode::Digit2);
    } else if c == '3' {
        assert(key_for(seq![c]) == KeyCode::Digit3);
    } else if c == '4' {
        assert(key_for(seq![c]) == KeyCode::Digit4);
    } else if c == '5' {
        assert(key_for(seq![c]) == KeyCode::Digit5);
    } else if c == '6' {
        assert(key_for(seq![c]) == KeyCode::Digit6);
    } else if c == '7' {
        assert(key_for(seq![c]) == KeyCode::Digit7);
    } else if c == '8' {
        assert(key_for(seq![c]) == KeyCode::Digit8);
    } else if c == '9' {
        assert(key_for(seq![c]) == KeyCode::Digit9);
    }
}

/// The function-key names `f1` to `f9` stand for the function keys: `f`
/// and a digit from 1 to 9 gives the key whose W3C name is `F` and that
/// digit.
#[verifier::spinoff_prover]
#[verifier::rlimit(40)]
pub proof fn lemma_function_key_names(d: char)
    requires
        '1' <= d <= '9',
    ensures
        key_for(seq!['f', d]).w3c_name_spec() == seq!['F', d],
{
    lemma_key_name_literals();
    lemma_w3c_name_literals();
    let name = seq!['f', d];
    assert(name.len() == 2 && name[0] == 'f' && name[1] == d);
    assert(name != "up"@);
    assert((name == "f1"@) == (d == '1'));
    assert((name == "f2"@) == (d == '2'));
    assert((name == "f3"@) == (d == '3'));
    assert((name == "f4"@) == (d == '4'));
    assert((name == "f5"@) == (d == '5'));
    assert((name == "f6"@) == (d == '6'));
    assert((name == "f7"@) == (d == '7'));
    assert((name == "f8"@) == (d == '8'));
    assert((name == "f9"@) == (d == '9'));
    if d == '1' {
        assert(key_for(name) == KeyCode::F1);
    } else if d == '2' {
        assert(key_for(name) == KeyCode::F2);
    } else if d == '3' {
        assert(key_for(name) == KeyCode::F3);
    } else if d == '4' {
        assert(key_for(name) == KeyCode::F4);
    } else if d == '5' {
        assert(key_for(name) == KeyCode::F5);
    } else if d == '6' {
        assert(key_for(name) == KeyCode::F6);
    } else if d == '7' {
        assert(key_for(name) == KeyCode::F7);
    } else if d == '8' {
        assert(key_for(name) == KeyCode::F8);
    } else if d == '9' {
        assert(key_for(name) == KeyCode::F9);
    }
}

/// The function-key names `f10`, `f11` and `f12` stand for the function
/// keys of those numbers.
#[verifier::spinoff_prover]
#[verifier::rlimit(40)]
pub proof fn lemma_two_digit_function_key_names(e: char)
    requires
        '0' <= e <= '2',
    ensures
        key_for(seq!['f', '1', e]).w3c_name_spec() == seq!['F', '1', e],
{
    lemma_key_name_literals();
    lemma_w3c_name_literals();
    let name = seq!['f', '1', e];
    assert(name.len() == 3 && name[0] == 'f' && name[1] == '1' && name[2] == e);
    assert(name != "tab"@);
    assert(name != "esc"@);
    assert(name != "del"@);
    assert(name != "end"@);
    assert((name == "f10"@) == (e == '0'));
    assert((name == "f11"@) == (e == '1'));
    assert((name == "f12"@) == (e == '2'));
    if e == '0' {
        assert(key_for(name) == KeyCode::F10);
    } else if e == '1' {
        assert(key_for(name) == KeyCode::F11);
    } else if e == '2' {
        assert(key_for(name) == KeyCode::F12);
    }
}

/// The key name that a W3C key name gives: the name in lowercase, without
/// the `key`, `digit` or `arrow` before a letter, a digit or a direction
/// (`KeyS` gives `s`, `Digit7` gives `7`, `ArrowUp` gives `up`, `PageUp`
/// gives `pageup`).
pub open spec fn short_key_name(code: Seq<char>) -> Seq<char> {
    let l = ascii_lowercase(code);
    if l.len() == 4 && l[0] == 'k' && l[1] == 'e' && l[2] == 'y' {
        l.skip(3)
    } else if l.len() == 6 && l[0] == 'd' && l[1] == 'i' && l[2] == 'g' && l[3] == 'i' && l[4]
        == 't' {
        l.skip(5)
    } else if l.len() > 5 && l[0] == 'a' && l[1] == 'r' && l[2] == 'r' && l[3] == 'o' && l[4]
        == 'w' {
        l.skip(5)
    } else {
        l
    }
}

/// Each of the named keys (the backquote, editing, arrow and paging keys) is read back from its W3C name.
#[verifier::spinoff_prover]
#[verifier::rlimit(60)]
proof fn lemma_named_keys_read_back(k: KeyCode)
    requires
        k is Backquote || k is Tab || k is Enter || k is Space || k is Escape ||
            k is Backspace || k is Delete || k is ArrowUp || k is ArrowDown || k is ArrowLeft ||
            k is ArrowRight || k is Home || k is End || k is PageUp || k is PageDown,
    ensures
        key_for(short_key_name(k.w3c_name_spec())) == k,
{
    lemma_key_name_literals();
    lemma_w3c_name_literals();
    match k {
        KeyCode::Backquote => {
            assert(ascii_lowercase(seq!['B', 'a', 'c', 'k', 'q', 'u', 'o', 't', 'e']) =~= seq!['b', 'a', 'c', 'k', 'q', 'u', 'o', 't', 'e']);
            assert(short_key_name(k.w3c_name_spec()) =~= seq!['b', 'a', 'c', 'k', 'q', 'u', 'o', 't', 'e']);
        },
        KeyCode::Tab => {
            assert(ascii_lowercase(seq!['T', 'a', 'b']) =~= seq!['t', 'a', 'b']);
            assert(short_key_name(k.w3c_name_spec()) =~= seq!['t', 'a', 'b']);
        },
        KeyCode::Enter => {
            assert(ascii_lowercase(seq!['E', 'n', 't', 'e', 'r']) =~= seq!['e', 'n', 't', 'e', 'r']);
            assert(short_key_name(k.w3c_name_spec()) =~= seq!['e', 'n', 't', 'e', 'r']);
        },
        KeyCode::Space => {
            assert(ascii_lowercase(seq!['S', 'p', 'a', 'c', 'e']) =~= seq!['s', 'p', 'a', 'c', 'e']);
            assert(short_key_name(k.w3c_name_spec()) =~= seq!['s', 'p', 'a', 'c', 'e']);
            assert(seq!['s', 'p', 'a', 'c', 'e'][0] != "enter"@[0]);
        },
        KeyCode::Escape => {
            assert(ascii_lowercase(seq!['E', 's', 'c', 'a', 'p', 'e']) =~= seq!['e', 's', 'c', 'a', 'p', 'e']);
            assert(short_key_name(k.w3c_name_spec()) =~= seq!['e', 's', 'c', 'a', 'p', 'e']);
            assert(seq!['e', 's', 'c', 'a', 'p', 'e'][0] != "return"@[0]);
        },
        KeyCode::Backspace => {
            assert(ascii_lowercase(seq!['B', 'a', 'c', 'k', 's', 'p', 'a', 'c', 'e']) =~= seq!['b', 'a', 'c', 'k', 's', 'p', 'a', 'c', 'e']);
            assert(short_key_name(k.w3c_name_spec()) =~= seq!['b', 'a', 'c', 'k', 's', 'p', 'a', 'c', 'e']);
            assert(seq!['b', 'a', 'c', 'k', 's', 'p', 'a', 'c', 'e'][4] != "backquote"@[4]);
        },
        KeyCode::Delete => {
            assert(ascii_lowercase(seq!['D', 'e', 'l', 'e', 't', 'e']) =~= seq!['d', 'e', 'l', 'e', 't', 'e']);
            assert(short_key_name(k.w3c_name_spec()) =~= seq!['d', 'e', 'l', 'e', 't', 'e']);
            assert(seq!['d', 'e', 'l', 'e', 't', 'e'][0] != "return"@[0]);
            assert(seq!['d', 'e', 'l', 'e', 't', 'e'][0] != "escape"@[0]);
        },
        KeyCode::ArrowUp => {
            assert(ascii_lowercase(seq!['A', 'r', 'r', 'o', 'w', 'U', 'p']) =~= seq!['a', 'r', 'r', 'o', 'w', 'u', 'p']);
            assert(short_key_name(k.w3c_name_spec()) =~= seq!['u', 'p']);
        },
        KeyCode::ArrowDown => {
            assert(ascii_lowercase(seq!['A', 'r', 'r', 'o', 'w', 'D', 'o', 'w', 'n']) =~= seq!['a', 'r', 'r', 'o', 'w', 'd', 'o', 'w', 'n']);
            assert(short_key_name(k.w3c_name_spec()) =~= seq!['d', 'o', 'w', 'n']);
        },
        KeyCode::ArrowLeft => {
            assert(ascii_lowercase(seq!['A', 'r', 'r', 'o', 'w', 'L', 'e', 'f', 't']) =~= seq!['a', 'r', 'r', 'o', 'w', 'l', 'e', 'f', 't']);
            assert(short_key_name(k.w3c_name_spec()) =~= seq!['l', 'e', 'f', 't']);
            assert(seq!['l', 'e', 'f', 't'][0] != "down"@[0]);
        },
        KeyCode::ArrowRight => {
            assert(ascii_lowercase(seq!['A', 'r', 'r', 'o', 'w', 'R', 'i', 'g', 'h', 't']) =~= seq!['a', 'r', 'r', 'o', 'w', 'r', 'i', 'g', 'h', 't']);
            assert(short_key_name(k.w3c_name_spec()) =~= seq!['r', 'i', 'g', 'h', 't']);
            assert(seq!['r', 'i', 'g', 'h', 't'][0] != "enter"@[0]);
            assert(seq!['r', 'i', 'g', 'h', 't'][0] != "space"@[0]);
        },
        KeyCode::Home => {
            assert(ascii_lowercase(seq!['H', 'o', 'm', 'e']) =~= seq!['h', 'o', 'm', 'e']);
            assert(short_key_name(k.w3c_name_spec()) =~= seq!['h', 'o', 'm', 'e']);
            assert(seq!['h', 'o', 'm', 'e'][0] != "down"@[0]);
            assert(seq!['h', 'o', 'm', 'e'][0] != "left"@[0]);
        },
        KeyCode::End => {
            assert(ascii_lowercase(seq!['E', 'n', 'd']) =~= seq!['e', 'n', 'd']);
            assert(short_key_name(k.w3c_name_spec()) =~= seq!['e', 'n', 'd']);
            assert(seq!['e', 'n', 'd'][0] != "tab"@[0]);
            assert(seq!['e', 'n', 'd'][1] != "esc"@[1]);
            assert(seq!['e', 'n', 'd'][0] != "del"@[0]);
        },
        KeyCode::PageUp => {
            assert(ascii_lowercase(seq!['P', 'a', 'g', 'e', 'U', 'p']) =~= seq!['p', 'a', 'g', 'e', 'u', 'p']);
            assert(short_key_name(k.w3c_name_spec()) =~= seq!['p', 'a', 'g', 'e', 'u', 'p']);
            assert(seq!['p', 'a', 'g', 'e', 'u', 'p'][0] != "return"@[0]);
            assert(seq!['p', 'a', 'g', 'e', 'u', 'p'][0] != "escape"@[0]);
            assert(seq!['p', 'a', 'g', 'e', 'u', 'p'][0] != "delete"@[0]);
        },
        KeyCode::PageDown => {
            assert(ascii_lowercase(seq!['P', 'a', 'g', 'e', 'D', 'o', 'w', 'n']) =~= seq!['p', 'a', 'g', 'e', 'd', 'o', 'w', 'n']);
            assert(short_key_name(k.w3c_name_spec()) =~= seq!['p', 'a', 'g', 'e', 'd', 'o', 'w', 'n']);
        },
        _ => {},
    }
}

/// Each of the digit keys is read back from its W3C name.
#[verifier::spinoff_prover]
#[verifier::rlimit(60)]
proof fn lemma_digit_keys_read_back(k: KeyCode)
    requires
        k is Digit0 || k is Digit1 || k is Digit2 || k is Digit3 || k is Digit4 ||
            k is Digit5 || k is Digit6 || k is Digit7 || k is Digit8 || k is Digit9,
    ensures
        key_for(short_key_name(k.w3c_name_spec())) == k,
{
    lemma_key_name_literals();
    lemma_w3c_name_literals();
    match k {
        KeyCode::Digit0 => {
            assert(ascii_lowercase(seq!['D', 'i', 'g', 'i', 't', '0']) =~= seq!['d', 'i', 'g', 'i', 't', '0']);
            assert(short_key_name(k.w3c_name_spec()) =~= seq!['0']);
            lemma_single_char_names('0');
        },
        KeyCode::Digit1 => {
            assert(ascii_lowercase(seq!['D', 'i', 'g', 'i', 't', '1']) =~= seq!['d', 'i', 'g', 'i', 't', '1']);
            assert(short_key_name(k.w3c_name_spec()) =~= seq!['1']);
            lemma_single_char_names('1');
        },
        KeyCode::Digit2 => {
            assert(ascii_lowercase(seq!['D', 'i', 'g', 'i', 't', '2']) =~= seq!['d', 'i', 'g', 'i', 't', '2']);
            assert(short_key_name(k.w3c_name_spec()) =~= seq!['2']);
            lemma_single_char_names('2');
        },
        KeyCode::Digit3 => {
            assert(ascii_lowercase(seq!['D', 'i', 'g', 'i', 't', '3']) =~= seq!['d', 'i', 'g', 'i', 't', '3']);
            assert(short_key_name(k.w3c_name_spec()) =~= seq!['3']);
            lemma_single_char_names('3');
        },
        KeyCode::Digit4 => {
            assert(ascii_lowercase(seq!['D', 'i', 'g', 'i', 't', '4']) =~= seq!['d', 'i', 'g', 'i', 't', '4']);
            assert(short_key_name(k.w3c_name_spec()) =~= seq!['4']);
            lemma_single_char_names('4');
        },
        KeyCode::Digit5 => {
            assert(ascii_lowercase(seq!['D', 'i', 'g', 'i', 't', '5']) =~= seq!['d', 'i', 'g', 'i', 't', '5']);
            assert(short_key_name(k.w3c_name_spec()) =~= seq!['5']);
            lemma_single_char_names('5');
        },
        KeyCode::Digit6 => {
            assert(ascii_lowercase(seq!['D', 'i', 'g', 'i', 't', '6']) =~= seq!['d', 'i', 'g', 'i', 't', '6']);
            assert(short_key_name(k.w3c_name_spec()) =~= seq!['6']);
            lemma_single_char_names('6');
        },
        KeyCode::Digit7 => {
            assert(ascii_lowercase(seq!['D', 'i', 'g', 'i', 't', '7']) =~= seq!['d', 'i', 'g', 'i', 't', '7']);
            assert(short_key_name(k.w3c_name_spec()) =~= seq!['7']);
            lemma_single_char_names('7');
        },
        KeyCode::Digit8 => {
            assert(ascii_lowercase(seq!['D', 'i', 'g', 'i', 't', '8']) =~= seq!['d', 'i', 'g', 'i', 't', '8']);
            assert(short_key_name(k.w3c_name_spec()) =~= seq!['8']);
            lemma_single_char_names('8');
        },
        KeyCode::Digit9 => {
            assert(ascii_lowercase(seq!['D', 'i', 'g', 'i', 't', '9']) =~= seq!['d', 'i', 'g', 'i', 't', '9']);
            assert(short_key_name(k.w3c_name_spec()) =~= seq!['9']);
            lemma_single_char_names('9');
        },
        _ => {},
    }
}

/// Each of the letter keys is read back from its W3C name.
#[verifier::spinoff_prover]
#[verifier::rlimit(60)]
proof fn lemma_letter_keys_read_back(k: KeyCode)
    requires
        k is KeyA || k is KeyB || k is KeyC || k is KeyD || k is KeyE || k is KeyF ||
            k is KeyG || k is KeyH || k is KeyI || k is KeyJ || k is KeyK || k is KeyL ||
            k is KeyM || k is KeyN || k is KeyO || k is KeyP || k is KeyQ || k is KeyR ||
            k is KeyS || k is KeyT || k is KeyU || k is KeyV || k is KeyW || k is KeyX ||
            k is KeyY || k is KeyZ,
    ensures
        key_for(short_key_name(k.w3c_name_spec())) == k,
{
    lemma_key_name_literals();
    lemma_w3c_name_literals();
    match k {
        KeyCode::KeyA => {
            assert(ascii_lowercase(seq!['K', 'e', 'y', 'A']) =~= seq!['k', 'e', 'y', 'a']);
            assert(short_key_name(k.w3c_name_spec()) =~= seq!['a']);
            lemma_single_char_names('a');
        },
        KeyCode::KeyB => {
            assert(ascii_lowercase(seq!['K', 'e', 'y', 'B']) =~= seq!['k', 'e', 'y', 'b']);
            assert(short_key_name(k.w3c_name_spec()) =~= seq!['b']);
            lemma_single_char_names('b');
        },
        KeyCode::KeyC => {
            assert(ascii_lowercase(seq!['K', 'e', 'y', 'C']) =~= seq!['k', 'e', 'y', 'c']);
            assert(short_key_name(k.w3c_name_spec()) =~= seq!['c']);
            lemma_single_char_names('c');
        },
        KeyCode::KeyD => {
            assert(ascii_lowercase(seq!['K', 'e', 'y', 'D']) =~= seq!['k', 'e', 'y', 'd']);
            assert(short_key_name(k.w3c_name_spec()) =~= seq!['d']);
            lemma_single_char_names('d');
        },
        KeyCode::KeyE => {
            assert(ascii_lowercase(seq!['K', 'e', 'y', 'E']) =~= seq!['k', 'e', 'y', 'e']);
            assert(short_key_name(k.w3c_name_spec()) =~= seq!['e']);
            lemma_single_char_names('e');
        },
        KeyCode::KeyF => {
            assert(ascii_lowercase(seq!['K', 'e', 'y', 'F']) =~= seq!['k', 'e', 'y', 'f']);
            assert(short_key_name(k.w3c_name_spec()) =~= seq!['f']);
            lemma_single_char_names('f');
        },
        KeyCode::KeyG => {
            assert(ascii_lowercase(seq!['K', 'e', 'y', 'G']) =~= seq!['k', 'e', 'y', 'g']);
            assert(short_key_name(k.w3c_name_spec()) =~= seq!['g']);
            lemma_single_char_names('g');
        },
        KeyCode::KeyH => {
            assert(ascii_lowercase(seq!['K', 'e', 'y', 'H']) =~= seq!['k', 'e', 'y', 'h']);
            assert(short_key_name(k.w3c_name_spec()) =~= seq!['h']);
            lemma_single_char_names('h');
        },
        KeyCode::KeyI => {
            assert(ascii_lowercase(seq!['K', 'e', 'y', 'I']) =~= seq!['k', 'e', 'y', 'i']);
            assert(short_key_name(k.w3c_name_spec()) =~= seq!['i']);
            lemma_single_char_names('i');
        },
        KeyCode::KeyJ => {
            assert(ascii_lowercase(seq!['K', 'e', 'y', 'J']) =~= seq!['k', 'e', 'y', 'j']);
            assert(short_key_name(k.w3c_name_spec()) =~= seq!['j']);
            lemma_single_char_names('j');
        },
        KeyCode::KeyK => {
            assert(ascii_lowercase(seq!['K', 'e', 'y', 'K']) =~= seq!['k', 'e', 'y', 'k']);
            assert(short_key_name(k.w3c_name_spec()) =~= seq!['k']);
            lemma_single_char_names('k');
        },
        KeyCode::KeyL => {
            assert(ascii_lowercase(seq!['K', 'e', 'y', 'L']) =~= seq!['k', 'e', 'y', 'l']);
            assert(short_key_name(k.w3c_name_spec()) =~= seq!['l']);
            lemma_single_char_names('l');
        },
        KeyCode::KeyM => {
            assert(ascii_lowercase(seq!['K', 'e', 'y', 'M']) =~= seq!['k', 'e', 'y', 'm']);
            assert(short_key_name(k.w3c_name_spec()) =~= seq!['m']);
            lemma_single_char_names('m');
        },
        KeyCode::KeyN => {
            assert(ascii_lowercase(seq!['K', 'e', 'y', 'N']) =~= seq!['k', 'e', 'y', 'n']);
            assert(short_key_name(k.w3c_name_spec()) =~= seq!['n']);
            lemma_single_char_names('n');
        },
        KeyCode::KeyO => {
            assert(ascii_lowercase(seq!['K', 'e', 'y', 'O']) =~= seq!['k', 'e', 'y', 'o']);
            assert(short_key_name(k.w3c_name_spec()) =~= seq!['o']);
            lemma_single_char_names('o');
        },
        KeyCode::KeyP => {
            assert(ascii_lowercase(seq!['K', 'e', 'y', 'P']) =~= seq!['k', 'e', 'y', 'p']);
            assert(short_key_name(k.w3c_name_spec()) =~= seq!['p']);
            lemma_single_char_names('p');
        },
        KeyCode::KeyQ => {
            assert(ascii_lowercase(seq!['K', 'e', 'y', 'Q']) =~= seq!['k', 'e', 'y', 'q']);
            assert(short_key_name(k.w3c_name_spec()) =~= seq!['q']);
            lemma_single_char_names('q');
        },
        KeyCode::KeyR => {
            assert(ascii_lowercase(seq!['K', 'e', 'y', 'R']) =~= seq!['k', 'e', 'y', 'r']);
            assert(short_key_name(k.w3c_name_spec()) =~= seq!['r']);
            lemma_single_char_names('r');
        },
        KeyCode::KeyS => {
            assert(ascii_lowercase(seq!['K', 'e', 'y', 'S']) =~= seq!['k', 'e', 'y', 's']);
            assert(short_key_name(k.w3c_name_spec()) =~= seq!['s']);
            lemma_single_char_names('s');
        },
        KeyCode::KeyT => {
            assert(ascii_lowercase(seq!['K', 'e', 'y', 'T']) =~= seq!['k', 'e', 'y', 't']);
            assert(short_key_name(k.w3c_name_spec()) =~= seq!['t']);
            lemma_single_char_names('t');
        },
        KeyCode::KeyU => {
            assert(ascii_lowercase(seq!['K', 'e', 'y', 'U']) =~= seq!['k', 'e', 'y', 'u']);
            assert(short_key_name(k.w3c_name_spec()) =~= seq!['u']);
            lemma_single_char_names('u');
        },
        KeyCode::KeyV => {
            assert(ascii_lowercase(seq!['K', 'e', 'y', 'V']) =~= seq!['k', 'e', 'y', 'v']);
            assert(short_key_name(k.w3c_name_spec()) =~= seq!['v']);
            lemma_single_char_names('v');
        },
        KeyCode::KeyW => {
            assert(ascii_lowercase(seq!['K', 'e', 'y', 'W']) =~= seq!['k', 'e', 'y', 'w']);
            assert(short_key_name(k.w3c_name_spec()) =~= seq!['w']);
            lemma_single_char_names('w');
        },
        KeyCode::KeyX => {
            assert(ascii_lowercase(seq!['K', 'e', 'y', 'X']) =~= seq!['k', 'e', 'y', 'x']);
            assert(short_key_name(k.w3c_name_spec()) =~= seq!['x']);
            lemma_single_char_names('x');
        },
        KeyCode::KeyY => {
            assert(ascii_lowercase(seq!['K', 'e', 'y', 'Y']) =~= seq!['k', 'e', 'y', 'y']);
            assert(short_key_name(k.w3c_name_spec()) =~= seq!['y']);
            lemma_single_char_names('y');
        },
        KeyCode::KeyZ => {
            assert(ascii_lowercase(seq!['K', 'e', 'y', 'Z']) =~= seq!['k', 'e', 'y', 'z']);
            assert(short_key_name(k.w3c_name_spec()) =~= seq!['z']);
            lemma_single_char_names('z');
        },
        _ => {},
    }
}

/// Each of the function keys is read back from its W3C name.
#[verifier::spinoff_prover]
#[verifier::rlimit(60)]
proof fn lemma_function_keys_read_back(k: KeyCode)
    requires
        k is F1 || k is F2 || k is F3 || k is F4 || k is F5 || k is F6 || k is F7 || k is F8 ||
            k is F9 || k is F10 || k is F11 || k is F12,
    ensures
        key_for(short_key_name(k.w3c_name_spec())) == k,
{
    lemma_key_name_literals();
    lemma_w3c_name_literals();
    match k {
        KeyCode::F1 => {
            assert(ascii_lowercase(seq!['F', '1']) =~= seq!['f', '1']);
            assert(short_key_name(k.w3c_name_spec()) =~= seq!['f', '1']);
            assert(seq!['f', '1'][0] != "up"@[0]);
        },
        KeyCode::F2 => {
            assert(ascii_lowercase(seq!['F', '2']) =~= seq!['f', '2']);
            assert(short_key_name(k.w3c_name_spec()) =~= seq!['f', '2']);
            assert(seq!['f', '2'][0] != "up"@[0]);
            assert(seq!['f', '2'][1] != "f1"@[1]);
        },
        KeyCode::F3 => {
            assert(ascii_lowercase(seq!['F', '3']) =~= seq!['f', '3']);
            assert(short_key_name(k.w3c_name_spec()) =~= seq!['f', '3']);
            assert(seq!['f', '3'][0] != "up"@[0]);
            assert(seq!['f', '3'][1] != "f1"@[1]);
            assert(seq!['f', '3'][1] != "f2"@[1]);
        },
        KeyCode::F4 => {
            assert(ascii_lowercase(seq!['F', '4']) =~= seq!['f', '4']);
            assert(short_key_name(k.w3c_name_spec()) =~= seq!['f', '4']);
            assert(seq!['f', '4'][0] != "up"@[0]);
            assert(seq!['f', '4'][1] != "f1"@[1]);
            assert(seq!['f', '4'][1] != "f2"@[1]);
            assert(seq!['f', '4'][1] != "f3"@[1]);
        },
        KeyCode::F5 => {
            assert(ascii_lowercase(seq!['F', '5']) =~= seq!['f', '5']);
            assert(short_key_name(k.w3c_name_spec()) =~= seq!['f', '5']);
            assert(seq!['f', '5'][0] != "up"@[0]);
            assert(seq!['f', '5'][1] != "f1"@[1]);
            assert(seq!['f', '5'][1] != "f2"@[1]);
            assert(seq!['f', '5'][1] != "f3"@[1]);
            assert(seq!['f', '5'][1] != "f4"@[1]);
        },
        KeyCode::F6 => {
            assert(ascii_lowercase(seq!['F', '6']) =~= seq!['f', '6']);
            assert(short_key_name(k.w3c_name_spec()) =~= seq!['f', '6']);
            assert(seq!['f', '6'][0] != "up"@[0]);
            assert(seq!['f', '6'][1] != "f1"@[1]);
            assert(seq!['f', '6'][1] != "f2"@[1]);
            assert(seq!['f', '6'][1] != "f3"@[1]);
            assert(seq!['f', '6'][1] != "f4"@[1]);
            assert(seq!['f', '6'][1] != "f5"@[1]);
        },
        KeyCode::F7 => {
            assert(ascii_lowercase(seq!['F', '7']) =~= seq!['f', '7']);
            assert(short_key_name(k.w3c_name_spec()) =~= seq!['f', '7']);
            assert(seq!['f', '7'][0] != "up"@[0]);
            assert(seq!['f', '7'][1] != "f1"@[1]);
            assert(seq!['f', '7'][1] != "f2"@[1]);
            assert(seq!['f', '7'][1] != "f3"@[1]);
            assert(seq!['f', '7'][1] != "f4"@[1]);
            assert(seq!['f', '7'][1] != "f5"@[1]);
            assert(seq!['f', '7'][1] != "f6"@[1]);
        },
        KeyCode::F8 => {
            assert(ascii_lowercase(seq!['F', '8']) =~= seq!['f', '8']);
            assert(short_key_name(k.w3c_name_spec()) =~= seq!['f', '8']);
            assert(seq!['f', '8'][0] != "up"@[0]);
            assert(seq!['f', '8'][1] != "f1"@[1]);
            assert(seq!['f', '8'][1] != "f2"@[1]);
            assert(seq!['f', '8'][1] != "f3"@[1]);
            assert(seq!['f', '8'][1] != "f4"@[1]);
            assert(seq!['f', '8'][1] != "f5"@[1]);
            assert(seq!['f', '8'][1] != "f6"@[1]);
            assert(seq!['f', '8'][1] != "f7"@[1]);
        },
        KeyCode::F9 => {
            assert(ascii_lowercase(seq!['F', '9']) =~= seq!['f', '9']);
            assert(short_key_name(k.w3c_name_spec()) =~= seq!['f', '9']);
            assert(seq!['f', '9'][0] != "up"@[0]);
            assert(seq!['f', '9'][1] != "f1"@[1]);
            assert(seq!['f', '9'][1] != "f2"@[1]);
            assert(seq!['f', '9'][1] != "f3"@[1]);
            assert(seq!['f', '9'][1] != "f4"@[1]);
            assert(seq!['f', '9'][1] != "f5"@[1]);
            assert(seq!['f', '9'][1] != "f6"@[1]);
            assert(seq!['f', '9'][1] != "f7"@[1]);
            assert(seq!['f', '9'][1] != "f8"@[1]);
        },
        KeyCode::F10 => {
            assert(ascii_lowercase(seq!['F', '1', '0']) =~= seq!['f', '1', '0']);
            assert(short_key_name(k.w3c_name_spec()) =~= seq!['f', '1', '0']);
            assert(seq!['f', '1', '0'][0] != "tab"@[0]);
            assert(seq!['f', '1', '0'][0] != "esc"@[0]);
            assert(seq!['f', '1', '0'][0] != "del"@[0]);
            assert(seq!['f', '1', '0'][0] != "end"@[0]);
        },
        KeyCode::F11 => {
            assert(ascii_lowercase(seq!['F', '1', '1']) =~= seq!['f', '1', '1']);
            assert(short_key_name(k.w3c_name_spec()) =~= seq!['f', '1', '1']);
            assert(seq!['f', '1', '1'][0] != "tab"@[0]);
            assert(seq!['f', '1', '1'][0] != "esc"@[0]);
            assert(seq!['f', '1', '1'][0] != "del"@[0]);
            assert(seq!['f', '1', '1'][0] != "end"@[0]);
            assert(seq!['f', '1', '1'][2] != "f10"@[2]);
        },
        KeyCode::F12 => {
            assert(ascii_lowercase(seq!['F', '1', '2']) =~= seq!['f', '1', '2']);
            assert(short_key_name(k.w3c_name_spec()) =~= seq!['f', '1', '2']);
            assert(seq!['f', '1', '2'][0] != "tab"@[0]);
            assert(seq!['f', '1', '2'][0] != "esc"@[0]);
            assert(seq!['f', '1', '2'][0] != "del"@[0]);
            assert(seq!['f', '1', '2'][0] != "end"@[0]);
            assert(seq!['f', '1', '2'][2] != "f10"@[2]);
            assert(seq!['f', '1', '2'][2] != "f11"@[2]);
        },
        _ => {},
    }
}

/// Every key is read back from its W3C name: the W3C name in lowercase,
/// without the `key`, `digit` or `arrow` before a letter, a digit or a
/// direction, is a key name that stands for that key (`KeyS` gives `s`,
/// which stands for the S key; `Enter` gives `enter`; `ArrowUp` gives `up`).
pub proof fn lemma_key_names_read_back(k: KeyCode)
    ensures
        key_for(short_key_name(k.w3c_name_spec())) == k,
{
    match k {
        KeyCode::Backquote | KeyCode::Tab | KeyCode::Enter | KeyCode::Space | KeyCode::Escape | KeyCode::Backspace | KeyCode::Delete | KeyCode::ArrowUp | KeyCode::ArrowDown | KeyCode::ArrowLeft | KeyCode::ArrowRight | KeyCode::Home | KeyCode::End | KeyCode::PageUp | KeyCode::PageDown => lemma_named_keys_read_back(k),
        KeyCode::Digit0 | KeyCode::Digit1 | KeyCode::Digit2 | KeyCode::Digit3 | KeyCode::Digit4 | KeyCode::Digit5 | KeyCode::Digit6 | KeyCode::Digit7 | KeyCode::Digit8 | KeyCode::Digit9 => lemma_digit_keys_read_back(k),
        KeyCode::KeyA | KeyCode::KeyB | KeyCode::KeyC | KeyCode::KeyD | KeyCode::KeyE | KeyCode::KeyF | KeyCode::KeyG | KeyCode::KeyH | KeyCode::KeyI | KeyCode::KeyJ | KeyCode::KeyK | KeyCode::KeyL | KeyCode::KeyM | KeyCode::KeyN | KeyCode::KeyO | KeyCode::KeyP | KeyCode::KeyQ | KeyCode::KeyR | KeyCode::KeyS | KeyCode::KeyT | KeyCode::KeyU | KeyCode::KeyV | KeyCode::KeyW | KeyCode::KeyX | KeyCode::KeyY | KeyCode::KeyZ => lemma_letter_keys_read_back(k),
        KeyCode::F1 | KeyCode::F2 | KeyCode::F3 | KeyCode::F4 | KeyCode::F5 | KeyCode::F6 | KeyCode::F7 | KeyCode::F8 | KeyCode::F9 | KeyCode::F10 | KeyCode::F11 | KeyCode::F12 => lemma_function_keys_read_back(k),
    }
}

} // verus!

use vstd::prelude::*;
use vstd::string::StringExecFns;
use crate::text::{char_text, push_char};

verus! {

/// The keys that have a name in the engine's notation, and `Other` for
/// all the rest.
#[derive(Clone, Copy, Debug, PartialEq, Eq, Structural)]
pub enum KeyCode {
    F1,
    F2,
    F3,
    F4,
    F5,
    F6,
    F7,
    F8,
    F9,
    F10,
    F11,
    F12,
    Insert,
    Home,
    Delete,
    End,
    PageDown,
    PageUp,
    Up,
    Down,
    Left,
    Right,
    Tab,
    /// The letter key `I`.
    I,
    /// Any key that has no name here.
    Other,
}

/// The modifier keys that are held.
#[derive(Clone, Copy, Debug, PartialEq, Eq, Structural)]
pub struct Modifiers {
    pub shift: bool,
    pub ctrl: bool,
    pub alt: bool,
}

/// The engine's name for a key, for the keys that have one.
pub open spec fn key_name(code: KeyCode) -> Option<Seq<char>> {
    match code {
        KeyCode::F1 => Some("F1"@),
        KeyCode::F2 => Some("F2"@),
        KeyCode::F3 => Some("F3"@),
        KeyCode::F4 => Some("F4"@),
        KeyCode::F5 => Some("F5"@),
        KeyCode::F6 => Some("F6"@),
        KeyCode::F7 => Some("F7"@),
        KeyCode::F8 => Some("F8"@),
        KeyCode::F9 => Some("F9"@),
        KeyCode::F10 => Some("F10"@),
        KeyCode::F11 => Some("F11"@),
        KeyCode::F12 => Some("F12"@),
        KeyCode::Insert => Some("Insert"@),
        KeyCode::Home => Some("Home"@),
        KeyCode::Delete => Some("Delete"@),
        KeyCode::End => Some("End"@),
        KeyCode::PageDown => Some("PageDown"@),
        KeyCode::PageUp => Some("PageUp"@),
        KeyCode::Up => Some("Up"@),
        KeyCode::Down => Some("Down"@),
        KeyCode::Left => Some("Left"@),
        KeyCode::Right => Some("Right"@),
        KeyCode::Tab => Some("Tab"@),
        KeyCode::I => None,
        KeyCode::Other => None,
    }
}

/// The letter of the one modifier that is written in front of a named key:
/// Alt before Ctrl before Shift.
pub open spec fn modifier_letter(modifiers: Modifiers) -> Option<Seq<char>> {
    if modifiers.alt {
        Some("M"@)
    } else if modifiers.ctrl {
        Some("C"@)
    } else if modifiers.shift {
        Some("S"@)
    } else {
        None
    }
}

/// A key in angle brackets, with its modifier in front where there is one.
pub open spec fn bracketed(modifier: Option<Seq<char>>, name: Seq<char>) -> Seq<char> {
    match modifier {
        Some(letter) => "<"@ + letter + "-"@ + name + ">"@,
        None => "<"@ + name + ">"@,
    }
}

/// What a typed character sends to the engine. Delete and Tab arrive as
/// keys and send nothing here; `<` is written `lt`; with Alt held the
/// character goes in brackets behind `M-`.
pub open spec fn character_keys(c: char, modifiers: Modifiers) -> Option<Seq<char>> {
    if c == '\u{7f}' || c == '\t' {
        None
    } else if c == '<' {
        if modifiers.alt {
            Some("<"@ + "M"@ + "-lt>"@)
        } else {
            Some("<lt>"@)
        }
    } else {
        if modifiers.alt {
            Some("<"@ + "M"@ + "-"@ + seq![c] + ">"@)
        } else {
            Some(seq![c])
        }
    }
}

/// What Ctrl with the letter `I` sends: the engine would otherwise take it
/// for Tab.
pub open spec fn ctrl_i_keys(modifiers: Modifiers) -> Seq<char> {
    "<C-"@ + (if modifiers.alt {
        "M-"@
    } else {
        ""@
    }) + (if modifiers.shift {
        "I"@
    } else {
        "i"@
    })
}

/// What a pressed key sends to the engine: nothing for a key without a
/// name, else the name in brackets behind the modifier.
pub open spec fn keycode_keys(code: KeyCode, modifiers: Modifiers) -> Option<Seq<char>> {
    if code == KeyCode::I && modifiers.ctrl {
        Some(ctrl_i_keys(modifiers))
    } else {
        match key_name(code) {
            Some(name) => Some(bracketed(modifier_letter(modifiers), name)),
            None => None,
        }
    }
}

/// The text of an optional result.
pub open spec fn keys_text(keys: Option<String>) -> Option<Seq<char>> {
    match keys {
        Some(text) => Some(text@),
        None => None,
    }
}

/// The engine's name for a key.
pub fn name_of(code: KeyCode) -> (name: Option<&'static str>)
    ensures
        match name {
            Some(text) => key_name(code) == Some(text@),
            None => key_name(code) is None,
        },
{
    match code {
        KeyCode::F1 => Some("F1"),
        KeyCode::F2 => Some("F2"),
        KeyCode::F3 => Some("F3"),
        KeyCode::F4 => Some("F4"),
        KeyCode::F5 => Some("F5"),
        KeyCode::F6 => Some("F6"),
        KeyCode::F7 => Some("F7"),
        KeyCode::F8 => Some("F8"),
        KeyCode::F9 => Some("F9"),
        KeyCode::F10 => Some("F10"),
        KeyCode::F11 => Some("F11"),
        KeyCode::F12 => Some("F12"),
        KeyCode::Insert => Some("Insert"),
        KeyCode::Home => Some("Home"),
        KeyCode::Delete => Some("Delete"),
        KeyCode::End => Some("End"),
        KeyCode::PageDown => Some("PageDown"),
        KeyCode::PageUp => Some("PageUp"),
        KeyCode::Up => Some("Up"),
        KeyCode::Down => Some("Down"),
        KeyCode::Left => Some("Left"),
        KeyCode::Right => Some("Right"),
        KeyCode::Tab => Some("Tab"),
        KeyCode::I => None,
        KeyCode::Other => None,
    }
}

/// Writes a key in angle brackets, with its modifier in front where there
/// is one.
pub fn bracket(modifier: Option<&str>, name: &str) -> (keys: String)
    ensures
        keys@ == bracketed(
            match modifier {
                Some(letter) => Some(letter@),
                None => None,
            },
            name@,
        ),
{
    let mut keys = String::from_str("<");
    if let Some(letter) = modifier {
        keys.append(letter);
        keys.append("-");
    }
    keys.append(name);
    keys.append(">");
    keys
}

/// Writes a typed character in the engine's key notation.
pub fn transform_character(c: char, modifiers: &Modifiers) -> (keys: Option<String>)
    ensures
        keys_text(keys) == character_keys(c, *modifiers),
{
    if c == '\u{7f}' || c == '\t' {
        return None;
    }
    if c == '<' {
        if modifiers.alt {
            let mut keys = String::from_str("<");
            keys.append("M");
            keys.append("-lt>");
            Some(keys)
        } else {
            Some(String::from_str("<lt>"))
        }
    } else {
        if modifiers.alt {
            let mut keys = String::from_str("<");
            keys.append("M");
            keys.append("-");
            push_char(&mut keys, c);
            keys.append(">");
            Some(keys)
        } else {
            Some(char_text(c))
        }
    }
}

/// Writes a pressed key in the engine's key notation.
pub fn transform_keycode(code: KeyCode, modifiers: &Modifiers) -> (keys: Option<String>)
    ensures
        keys_text(keys) == keycode_keys(code, *modifiers),
{
    if code == KeyCode::I && modifiers.ctrl {
        let mut keys = String::from_str("<C-");
        keys.append(
            if modifiers.alt {
                "M-"
            } else {
                ""
            },
        );
        keys.append(
            if modifiers.shift {
                "I"
            } else {
                "i"
            },
        );
        return Some(keys);
    }
    let modifier: Option<&str> = if modifiers.alt {
        Some("M")
    } else if modifiers.ctrl {
        Some("C")
    } else if modifiers.shift {
        Some("S")
    } else {
        None
    };
    match name_of(code) {
        Some(name) => Some(bracket(modifier, name)),
        None => None,
    }
}

} // verus!

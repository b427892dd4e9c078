use vstd::prelude::*;
use vstd::string::StringExecFns;
use crate::keys::{bracket, bracketed, key_name, keys_text, name_of, KeyCode, Modifiers};
use crate::text::{char_text, push_char};

verus! {

/// The letter of the modifier in the plain notation: Alt before Ctrl.
/// Shift is not written.
pub open spec fn plain_modifier_letter(modifiers: Modifiers) -> Option<Seq<char>> {
    if modifiers.alt {
        Some("M"@)
    } else if modifiers.ctrl {
        Some("C"@)
    } else {
        None
    }
}

/// What a typed character sends in the plain notation. Only Delete
/// sends nothing: Tab goes through as a character.
pub open spec fn plain_character_keys(c: char, modifiers: Modifiers) -> Option<Seq<char>> {
    if c == '\u{7f}' {
        None
    } else if c == '<' {
        if modifiers.alt {
            Some("<"@ + "M"@ + "-lt>"@)
        } else {
            Some("<lt>"@)
        }
    } else {
        if modifiers.alt {
            Some("<"@ + "M"@ + "-"@ + seq![c] + ">"@)
        } else {
            Some(seq![c])
        }
    }
}

/// What a pressed key sends in the plain notation. Tab has no name
/// here, since it arrives as a character.
pub open spec fn plain_keycode_keys(code: KeyCode, modifiers: Modifiers) -> Option<Seq<char>> {
    if code == KeyCode::Tab {
        None
    } else {
        match key_name(code) {
            Some(name) => Some(bracketed(plain_modifier_letter(modifiers), name)),
            None => None,
        }
    }
}

/// Writes a typed character in the engine's key notation, leaving
/// Tab as it is.
pub fn transform_character(c: char, modifiers: &Modifiers) -> (keys: Option<String>)
    ensures
        keys_text(keys) == plain_character_keys(c, *modifiers),
{
    if c == '\u{7f}' {
        return None;
    }
    if c == '<' {
        if modifiers.alt {
            let mut keys = String::from_str("<");
            keys.append("M");
            keys.append("-lt>");
            Some(keys)
        } else {
            Some(String::from_str("<lt>"))
        }
    } else {
        if modifiers.alt {
            let mut keys = String::from_str("<");
            keys.append("M");
            keys.append("-");
            push_char(&mut keys, c);
            keys.append(">");
            Some(keys)
        } else {
            Some(char_text(c))
        }
    }
}

/// Writes a pressed key in the engine's key notation, with Alt
/// or Ctrl and no other modifier.
pub fn transform_keycode(code: KeyCode, modifiers: &Modifiers) -> (keys: Option<String>)
    ensures
        keys_text(keys) == plain_keycode_keys(code, *modifiers),
{
    if code == KeyCode::Tab {
        return None;
    }
    let modifier: Option<&str> = if modifiers.alt {
        Some("M")
    } else if modifiers.ctrl {
        Some("C")
    } else {
        None
    };
    match name_of(code) {
        Some(name) => Some(bracket(modifier, name)),
        None => None,
    }
}

} // verus!

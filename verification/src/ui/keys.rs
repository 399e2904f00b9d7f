//! Turning a key press recorded in the settings window into a hotkey combo
//! string that global_hotkey's parser understands.
use vstd::prelude::*;
use vstd::string::*;

use crate::text::{is_blank, is_ws};

verus! {

/// A key as the settings window sees it: the keys a global hotkey may use,
/// Escape (which cancels recording), and everything else.
#[derive(Clone, Copy, Debug, PartialEq, Eq, Structural)]
pub enum KeyInput {
    A,
    B,
    C,
    D,
    E,
    F,
    G,
    H,
    I,
    J,
    K,
    L,
    M,
    N,
    O,
    P,
    Q,
    R,
    S,
    T,
    U,
    V,
    W,
    X,
    Y,
    Z,
    Num0,
    Num1,
    Num2,
    Num3,
    Num4,
    Num5,
    Num6,
    Num7,
    Num8,
    Num9,
    F1,
    F2,
    F3,
    F4,
    F5,
    F6,
    F7,
    F8,
    F9,
    F10,
    F11,
    F12,
    ArrowUp,
    ArrowDown,
    ArrowLeft,
    ArrowRight,
    Enter,
    Space,
    Tab,
    Backspace,
    Insert,
    Delete,
    Home,
    End,
    PageUp,
    PageDown,
    Minus,
    Period,
    Comma,
    Slash,
    Backslash,
    Semicolon,
    Quote,
    OpenBracket,
    CloseBracket,
    Equals,
    Escape,
    Other,
}

/// The modifier keys held with a key.
#[derive(Clone, Copy, Debug, PartialEq, Eq, Structural)]
pub struct KeyModifiers {
    pub ctrl: bool,
    pub shift: bool,
    pub alt: bool,
}

/// The global_hotkey key code for `key`, for the keys a hotkey may use.
pub open spec fn key_code(key: KeyInput) -> Option<Seq<char>> {
    match key {
        KeyInput::A => Some("KeyA"@),
        KeyInput::B => Some("KeyB"@),
        KeyInput::C => Some("KeyC"@),
        KeyInput::D => Some("KeyD"@),
        KeyInput::E => Some("KeyE"@),
        KeyInput::F => Some("KeyF"@),
        KeyInput::G => Some("KeyG"@),
        KeyInput::H => Some("KeyH"@),
        KeyInput::I => Some("KeyI"@),
        KeyInput::J => Some("KeyJ"@),
        KeyInput::K => Some("KeyK"@),
        KeyInput::L => Some("KeyL"@),
        KeyInput::M => Some("KeyM"@),
        KeyInput::N => Some("KeyN"@),
        KeyInput::O => Some("KeyO"@),
        KeyInput::P => Some("KeyP"@),
        KeyInput::Q => Some("KeyQ"@),
        KeyInput::R => Some("KeyR"@),
        KeyInput::S => Some("KeyS"@),
        KeyInput::T => Some("KeyT"@),
        KeyInput::U => Some("KeyU"@),
        KeyInput::V => Some("KeyV"@),
        KeyInput::W => Some("KeyW"@),
        KeyInput::X => Some("KeyX"@),
        KeyInput::Y => Some("KeyY"@),
        KeyInput::Z => Some("KeyZ"@),
        KeyInput::Num0 => Some("Digit0"@),
        KeyInput::Num1 => Some("Digit1"@),
        KeyInput::Num2 => Some("Digit2"@),
        KeyInput::Num3 => Some("Digit3"@),
        KeyInput::Num4 => Some("Digit4"@),
        KeyInput::Num5 => Some("Digit5"@),
        KeyInput::Num6 => Some("Digit6"@),
        KeyInput::Num7 => Some("Digit7"@),
        KeyInput::Num8 => Some("Digit8"@),
        KeyInput::Num9 => Some("Digit9"@),
        KeyInput::F1 => Some("F1"@),
        KeyInput::F2 => Some("F2"@),
        KeyInput::F3 => Some("F3"@),
        KeyInput::F4 => Some("F4"@),
        KeyInput::F5 => Some("F5"@),
        KeyInput::F6 => Some("F6"@),
        KeyInput::F7 => Some("F7"@),
        KeyInput::F8 => Some("F8"@),
        KeyInput::F9 => Some("F9"@),
        KeyInput::F10 => Some("F10"@),
        KeyInput::F11 => Some("F11"@),
        KeyInput::F12 => Some("F12"@),
        KeyInput::ArrowUp => Some("ArrowUp"@),
        KeyInput::ArrowDown => Some("ArrowDown"@),
        KeyInput::ArrowLeft => Some("ArrowLeft"@),
        KeyInput::ArrowRight => Some("ArrowRight"@),
        KeyInput::Enter => Some("Enter"@),
        KeyInput::Space => Some("Space"@),
        KeyInput::Tab => Some("Tab"@),
        KeyInput::Backspace => Some("Backspace"@),
        KeyInput::Insert => Some("Insert"@),
        KeyInput::Delete => Some("Delete"@),
        KeyInput::Home => Some("Home"@),
        KeyInput::End => Some("End"@),
        KeyInput::PageUp => Some("PageUp"@),
        KeyInput::PageDown => Some("PageDown"@),
        KeyInput::Minus => Some("Minus"@),
        KeyInput::Period => Some("Period"@),
        KeyInput::Comma => Some("Comma"@),
        KeyInput::Slash => Some("Slash"@),
        KeyInput::Backslash => Some("Backslash"@),
        KeyInput::Semicolon => Some("Semicolon"@),
        KeyInput::Quote => Some("Quote"@),
        KeyInput::OpenBracket => Some("BracketLeft"@),
        KeyInput::CloseBracket => Some("BracketRight"@),
        KeyInput::Equals => Some("Equal"@),
        KeyInput::Escape => None,
        KeyInput::Other => None,
    }
}

/// The letter keys, in alphabetical order.
pub open spec fn letter_key(i: int) -> KeyInput {
    seq![KeyInput::A, KeyInput::B, KeyInput::C, KeyInput::D, KeyInput::E, KeyInput::F, KeyInput::G, KeyInput::H, KeyInput::I, KeyInput::J, KeyInput::K, KeyInput::L, KeyInput::M, KeyInput::N, KeyInput::O, KeyInput::P, KeyInput::Q, KeyInput::R, KeyInput::S, KeyInput::T, KeyInput::U, KeyInput::V, KeyInput::W, KeyInput::X, KeyInput::Y, KeyInput::Z][i]
}

/// The digit keys `0` to `9`, in order.
pub open spec fn digit_key(i: int) -> KeyInput {
    seq![KeyInput::Num0, KeyInput::Num1, KeyInput::Num2, KeyInput::Num3, KeyInput::Num4, KeyInput::Num5, KeyInput::Num6, KeyInput::Num7, KeyInput::Num8, KeyInput::Num9][i]
}

/// The combo recorded from a letter or digit key names the key pressed: the
/// key code of the `i`-th letter key is `Key` followed by the `i`-th capital
/// letter (the character `'A' + i`), and that of the digit key `d` is
/// `Digit` followed by the digit `d` (the character `'0' + d`).
pub proof fn lemma_key_codes_name_the_key()
    ensures
        forall|i: int|
            0 <= i < 26 ==> key_code(#[trigger] letter_key(i)) == Some(
                "Key"@.push((65 + i) as char),
            ),
        forall|d: int|
            0 <= d < 10 ==> key_code(#[trigger] digit_key(d)) == Some(
                "Digit"@.push((48 + d) as char),
            ),
{
    reveal_strlit("Key");
    reveal_strlit("Digit");
    reveal_strlit("KeyA");
    reveal_strlit("KeyB");
    reveal_strlit("KeyC");
    reveal_strlit("KeyD");
    reveal_strlit("KeyE");
    reveal_strlit("KeyF");
    reveal_strlit("KeyG");
    reveal_strlit("KeyH");
    reveal_strlit("KeyI");
    reveal_strlit("KeyJ");
    reveal_strlit("KeyK");
    reveal_strlit("KeyL");
    reveal_strlit("KeyM");
    reveal_strlit("KeyN");
    reveal_strlit("KeyO");
    reveal_strlit("KeyP");
    reveal_strlit("KeyQ");
    reveal_strlit("KeyR");
    reveal_strlit("KeyS");
    reveal_strlit("KeyT");
    reveal_strlit("KeyU");
    reveal_strlit("KeyV");
    reveal_strlit("KeyW");
    reveal_strlit("KeyX");
    reveal_strlit("KeyY");
    reveal_strlit("KeyZ");
    reveal_strlit("Digit0");
    reveal_strlit("Digit1");
    reveal_strlit("Digit2");
    reveal_strlit("Digit3");
    reveal_strlit("Digit4");
    reveal_strlit("Digit5");
    reveal_strlit("Digit6");
    reveal_strlit("Digit7");
    reveal_strlit("Digit8");
    reveal_strlit("Digit9");
    assert forall|i: int| 0 <= i < 26 implies key_code(#[trigger] letter_key(i)) == Some(
        "Key"@.push((65 + i) as char),
    ) by {
        if i == 0 {
            assert("KeyA"@ =~= "Key"@.push('A'));
        } else if i == 1 {
            assert("KeyB"@ =~= "Key"@.push('B'));
        } else if i == 2 {
            assert("KeyC"@ =~= "Key"@.push('C'));
        } else if i == 3 {
            assert("KeyD"@ =~= "Key"@.push('D'));
        } else if i == 4 {
            assert("KeyE"@ =~= "Key"@.push('E'));
        } else if i == 5 {
            assert("KeyF"@ =~= "Key"@.push('F'));
        } else if i == 6 {
            assert("KeyG"@ =~= "Key"@.push('G'));
        } else if i == 7 {
            assert("KeyH"@ =~= "Key"@.push('H'));
        } else if i == 8 {
            assert("KeyI"@ =~= "Key"@.push('I'));
        } else if i == 9 {
            assert("KeyJ"@ =~= "Key"@.push('J'));
        } else if i == 10 {
            assert("KeyK"@ =~= "Key"@.push('K'));
        } else if i == 11 {
            assert("KeyL"@ =~= "Key"@.push('L'));
        } else if i == 12 {
            assert("KeyM"@ =~= "Key"@.push('M'));
        } else if i == 13 {
            assert("KeyN"@ =~= "Key"@.push('N'));
        } else if i == 14 {
            assert("KeyO"@ =~= "Key"@.push('O'));
        } else if i == 15 {
            assert("KeyP"@ =~= "Key"@.push('P'));
        } else if i == 16 {
            assert("KeyQ"@ =~= "Key"@.push('Q'));
        } else if i == 17 {
            assert("KeyR"@ =~= "Key"@.push('R'));
        } else if i == 18 {
            assert("KeyS"@ =~= "Key"@.push('S'));
        } else if i == 19 {
            assert("KeyT"@ =~= "Key"@.push('T'));
        } else if i == 20 {
            assert("KeyU"@ =~= "Key"@.push('U'));
        } else if i == 21 {
            assert("KeyV"@ =~= "Key"@.push('V'));
        } else if i == 22 {
            assert("KeyW"@ =~= "Key"@.push('W'));
        } else if i == 23 {
            assert("KeyX"@ =~= "Key"@.push('X'));
        } else if i == 24 {
            assert("KeyY"@ =~= "Key"@.push('Y'));
        } else if i == 25 {
            assert("KeyZ"@ =~= "Key"@.push('Z'));
        }
    }
    assert forall|i: int| 0 <= i < 10 implies key_code(#[trigger] digit_key(i)) == Some(
        "Digit"@.push((48 + i) as char),
    ) by {
        if i == 0 {
            assert("Digit0"@ =~= "Digit"@.push('0'));
        } else if i == 1 {
            assert("Digit1"@ =~= "Digit"@.push('1'));
        } else if i == 2 {
            assert("Digit2"@ =~= "Digit"@.push('2'));
        } else if i == 3 {
            assert("Digit3"@ =~= "Digit"@.push('3'));
        } else if i == 4 {
            assert("Digit4"@ =~= "Digit"@.push('4'));
        } else if i == 5 {
            assert("Digit5"@ =~= "Digit"@.push('5'));
        } else if i == 6 {
            assert("Digit6"@ =~= "Digit"@.push('6'));
        } else if i == 7 {
            assert("Digit7"@ =~= "Digit"@.push('7'));
        } else if i == 8 {
            assert("Digit8"@ =~= "Digit"@.push('8'));
        } else if i == 9 {
            assert("Digit9"@ =~= "Digit"@.push('9'));
        }
    }
}

/// The combo for `code` held with `mods`: `ctrl+`, `shift+`, `alt+` (those
/// held, in that order), then the code.
pub open spec fn combo_text(mods: KeyModifiers, code: Seq<char>) -> Seq<char> {
    (if mods.ctrl { "ctrl+"@ } else { Seq::empty() }) + (if mods.shift { "shift+"@ } else {
        Seq::empty()
    }) + (if mods.alt { "alt+"@ } else { Seq::empty() }) + code
}

/// The global_hotkey key code for `key`.
pub fn key_code_of(key: KeyInput) -> (r: Option<&'static str>)
    ensures
        match r {
            Some(c) => key_code(key) == Some(c@) && c@.len() > 0 && !is_ws(c@.last()),
            None => key_code(key) is None,
        },
{
    let code = match key {
        KeyInput::A => {
            proof {
                reveal_strlit("KeyA");
            }
            "KeyA"
        },
        KeyInput::B => {
            proof {
                reveal_strlit("KeyB");
            }
            "KeyB"
        },
        KeyInput::C => {
            proof {
                reveal_strlit("KeyC");
            }
            "KeyC"
        },
        KeyInput::D => {
            proof {
                reveal_strlit("KeyD");
            }
            "KeyD"
        },
        KeyInput::E => {
            proof {
                reveal_strlit("KeyE");
            }
            "KeyE"
        },
        KeyInput::F => {
            proof {
                reveal_strlit("KeyF");
            }
            "KeyF"
        },
        KeyInput::G => {
            proof {
                reveal_strlit("KeyG");
            }
            "KeyG"
        },
        KeyInput::H => {
            proof {
                reveal_strlit("KeyH");
            }
            "KeyH"
        },
        KeyInput::I => {
            proof {
                reveal_strlit("KeyI");
            }
            "KeyI"
        },
        KeyInput::J => {
            proof {
                reveal_strlit("KeyJ");
            }
            "KeyJ"
        },
        KeyInput::K => {
            proof {
                reveal_strlit("KeyK");
            }
            "KeyK"
        },
        KeyInput::L => {
            proof {
                reveal_strlit("KeyL");
            }
            "KeyL"
        },
        KeyInput::M => {
            proof {
                reveal_strlit("KeyM");
            }
            "KeyM"
        },
        KeyInput::N => {
            proof {
                reveal_strlit("KeyN");
            }
            "KeyN"
        },
        KeyInput::O => {
            proof {
                reveal_strlit("KeyO");
            }
            "KeyO"
        },
        KeyInput::P => {
            proof {
                reveal_strlit("KeyP");
            }
            "KeyP"
        },
        KeyInput::Q => {
            proof {
                reveal_strlit("KeyQ");
            }
            "KeyQ"
        },
        KeyInput::R => {
            proof {
                reveal_strlit("KeyR");
            }
            "KeyR"
        },
        KeyInput::S => {
            proof {
                reveal_strlit("KeyS");
            }
            "KeyS"
        },
        KeyInput::T => {
            proof {
                reveal_strlit("KeyT");
            }
            "KeyT"
        },
        KeyInput::U => {
            proof {
                reveal_strlit("KeyU");
            }
            "KeyU"
        },
        KeyInput::V => {
            proof {
                reveal_strlit("KeyV");
            }
            "KeyV"
        },
        KeyInput::W => {
            proof {
                reveal_strlit("KeyW");
            }
            "KeyW"
        },
        KeyInput::X => {
            proof {
                reveal_strlit("KeyX");
            }
            "KeyX"
        },
        KeyInput::Y => {
            proof {
                reveal_strlit("KeyY");
            }
            "KeyY"
        },
        KeyInput::Z => {
            proof {
                reveal_strlit("KeyZ");
            }
            "KeyZ"
        },
        KeyInput::Num0 => {
            proof {
                reveal_strlit("Digit0");
            }
            "Digit0"
        },
        KeyInput::Num1 => {
            proof {
                reveal_strlit("Digit1");
            }
            "Digit1"
        },
        KeyInput::Num2 => {
            proof {
                reveal_strlit("Digit2");
            }
            "Digit2"
        },
        KeyInput::Num3 => {
            proof {
                reveal_strlit("Digit3");
            }
            "Digit3"
        },
        KeyInput::Num4 => {
            proof {
                reveal_strlit("Digit4");
            }
            "Digit4"
        },
        KeyInput::Num5 => {
            proof {
                reveal_strlit("Digit5");
            }
            "Digit5"
        },
        KeyInput::Num6 => {
            proof {
                reveal_strlit("Digit6");
            }
            "Digit6"
        },
        KeyInput::Num7 => {
            proof {
                reveal_strlit("Digit7");
            }
            "Digit7"
        },
        KeyInput::Num8 => {
            proof {
                reveal_strlit("Digit8");
            }
            "Digit8"
        },
        KeyInput::Num9 => {
            proof {
                reveal_strlit("Digit9");
            }
            "Digit9"
        },
        KeyInput::F1 => {
            proof {
                reveal_strlit("F1");
            }
            "F1"
        },
        KeyInput::F2 => {
            proof {
                reveal_strlit("F2");
            }
            "F2"
        },
        KeyInput::F3 => {
            proof {
                reveal_strlit("F3");
            }
            "F3"
        },
        KeyInput::F4 => {
            proof {
                reveal_strlit("F4");
            }
            "F4"
        },
        KeyInput::F5 => {
            proof {
                reveal_strlit("F5");
            }
            "F5"
        },
        KeyInput::F6 => {
            proof {
                reveal_strlit("F6");
            }
            "F6"
        },
        KeyInput::F7 => {
            proof {
                reveal_strlit("F7");
            }
            "F7"
        },
        KeyInput::F8 => {
            proof {
                reveal_strlit("F8");
            }
            "F8"
        },
        KeyInput::F9 => {
            proof {
                reveal_strlit("F9");
            }
            "F9"
        },
        KeyInput::F10 => {
            proof {
                reveal_strlit("F10");
            }
            "F10"
        },
        KeyInput::F11 => {
            proof {
                reveal_strlit("F11");
            }
            "F11"
        },
        KeyInput::F12 => {
            proof {
                reveal_strlit("F12");
            }
            "F12"
        },
        KeyInput::ArrowUp => {
            proof {
                reveal_strlit("ArrowUp");
            }
            "ArrowUp"
        },
        KeyInput::ArrowDown => {
            proof {
                reveal_strlit("ArrowDown");
            }
            "ArrowDown"
        },
        KeyInput::ArrowLeft => {
            proof {
                reveal_strlit("ArrowLeft");
            }
            "ArrowLeft"
        },
        KeyInput::ArrowRight => {
            proof {
                reveal_strlit("ArrowRight");
            }
            "ArrowRight"
        },
        KeyInput::Enter => {
            proof {
                reveal_strlit("Enter");
            }
            "Enter"
        },
        KeyInput::Space => {
            proof {
                reveal_strlit("Space");
            }
            "Space"
        },
        KeyInput::Tab => {
            proof {
                reveal_strlit("Tab");
            }
            "Tab"
        },
        KeyInput::Backspace => {
            proof {
                reveal_strlit("Backspace");
            }
            "Backspace"
        },
        KeyInput::Insert => {
            proof {
                reveal_strlit("Insert");
            }
            "Insert"
        },
        KeyInput::Delete => {
            proof {
                reveal_strlit("Delete");
            }
            "Delete"
        },
        KeyInput::Home => {
            proof {
                reveal_strlit("Home");
            }
            "Home"
        },
        KeyInput::End => {
            proof {
                reveal_strlit("End");
            }
            "End"
        },
        KeyInput::PageUp => {
            proof {
                reveal_strlit("PageUp");
            }
            "PageUp"
        },
        KeyInput::PageDown => {
            proof {
                reveal_strlit("PageDown");
            }
            "PageDown"
        },
        KeyInput::Minus => {
            proof {
                reveal_strlit("Minus");
            }
            "Minus"
        },
        KeyInput::Period => {
            proof {
                reveal_strlit("Period");
            }
            "Period"
        },
        KeyInput::Comma => {
            proof {
                reveal_strlit("Comma");
            }
            "Comma"
        },
        KeyInput::Slash => {
            proof {
                reveal_strlit("Slash");
            }
            "Slash"
        },
        KeyInput::Backslash => {
            proof {
                reveal_strlit("Backslash");
            }
            "Backslash"
        },
        KeyInput::Semicolon => {
            proof {
                reveal_strlit("Semicolon");
            }
            "Semicolon"
        },
        KeyInput::Quote => {
            proof {
                reveal_strlit("Quote");
            }
            "Quote"
        },
        KeyInput::OpenBracket => {
            proof {
                reveal_strlit("BracketLeft");
            }
            "BracketLeft"
        },
        KeyInput::CloseBracket => {
            proof {
                reveal_strlit("BracketRight");
            }
            "BracketRight"
        },
        KeyInput::Equals => {
            proof {
                reveal_strlit("Equal");
            }
            "Equal"
        },
        KeyInput::Escape => {
            return None;
        },
        KeyInput::Other => {
            return None;
        },
    };
    Some(code)
}

/// Maps a key press and its modifiers to a string global_hotkey's parser
/// understands (e.g. `ctrl+shift+KeyS`); `None` for keys not suited to a
/// global hotkey.
pub fn build_combo_string(modifiers: KeyModifiers, key: KeyInput) -> (r: Option<String>)
    ensures
        match key_code(key) {
            Some(code) => r matches Some(s) && s@ == combo_text(modifiers, code),
            None => r is None,
        },
        r matches Some(s) ==> !is_blank(s@),
{
    let code = match key_code_of(key) {
        Some(c) => c,
        None => {
            return None;
        },
    };
    let mut s = String::new();
    if modifiers.ctrl {
        s.append("ctrl+");
    }
    if modifiers.shift {
        s.append("shift+");
    }
    if modifiers.alt {
        s.append("alt+");
    }
    s.append(code);
    assert(s@.last() == code@.last());
    assert(!is_ws(s@[s@.len() - 1]));
    Some(s)
}

} // verus!

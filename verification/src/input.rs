//! Keyboard input: from a key event of the browser to the bytes that a
//! terminal expects.

use vstd::prelude::*;
use vstd::string::StringExecFns;
use crate::text::{char_to_string, push_char, single_ascii, sole_ascii_char, str_eq};

verus! {

/// The ASCII upper-case form of a character.
pub open spec fn ascii_upper(c: char) -> char {
    if 'a' <= c <= 'z' {
        ((c as u8) - 32) as char
    } else {
        c
    }
}

/// The control character that Ctrl and a key give: 1 to 26 for the letters,
/// and the seven others of the C0 and DEL range for their punctuation keys.
pub open spec fn ctrl_char(key: Seq<char>) -> Option<char> {
    if !single_ascii(key) {
        None
    } else {
        let c = ascii_upper(key[0]);
        if 'A' <= c <= 'Z' {
            Some(((c as u8) - 64) as char)
        } else if c == '@' {
            Some('\x00')
        } else if c == '[' {
            Some('\x1b')
        } else if c == '\\' {
            Some('\x1c')
        } else if c == ']' {
            Some('\x1d')
        } else if c == '^' {
            Some('\x1e')
        } else if c == '_' {
            Some('\x1f')
        } else if c == '?' {
            Some('\x7f')
        } else {
            None
        }
    }
}

/// The modifier parameter of a CSI sequence: one plus 1 for Shift, 2 for
/// Alt and 4 for Ctrl, and zero where no modifier is held.
pub open spec fn modifier_of(ctrl: bool, alt: bool, shift: bool) -> u8 {
    let sum = (if shift { 1int } else { 0int }) + (if alt { 2int } else { 0int }) + (if ctrl {
        4int
    } else {
        0int
    });
    if sum == 0 {
        0u8
    } else {
        (1 + sum) as u8
    }
}

/// The decimal digit of a number below ten.
pub open spec fn digit_char(n: u8) -> char {
    (48 + n) as char
}

/// The sequence of an arrow key: `ESC O d` in application mode without
/// modifiers, `ESC [ 1 ; m d` with modifiers, `ESC [ d` otherwise.
pub open spec fn arrow_sequence(application: bool, direction: char, modifier: u8) -> Seq<char> {
    if application && modifier == 0 {
        "\x1bO"@.push(direction)
    } else if modifier > 0 {
        "\x1b[1;"@.push(digit_char(modifier)).push(direction)
    } else {
        "\x1b["@.push(direction)
    }
}

/// The sequence of Home or End: `ESC [ 1 ; m k` with modifiers, `ESC [ k`
/// without.
pub open spec fn special_sequence(key: char, modifier: u8) -> Seq<char> {
    if modifier > 0 {
        "\x1b[1;"@.push(digit_char(modifier)).push(key)
    } else {
        "\x1b["@.push(key)
    }
}

/// The sequence of a key that is known by its code, if the code is one of
/// them.
pub open spec fn coded_sequence(
    application: bool,
    code: Seq<char>,
    ctrl: bool,
    alt: bool,
    shift: bool,
) -> Option<Seq<char>> {
    let m = modifier_of(ctrl, alt, shift);
    if code == "ArrowUp"@ {
        Some(arrow_sequence(application, 'A', m))
    } else if code == "ArrowDown"@ {
        Some(arrow_sequence(application, 'B', m))
    } else if code == "ArrowRight"@ {
        Some(arrow_sequence(application, 'C', m))
    } else if code == "ArrowLeft"@ {
        Some(arrow_sequence(application, 'D', m))
    } else if code == "Home"@ {
        Some(special_sequence('H', m))
    } else if code == "End"@ {
        Some(special_sequence('F', m))
    } else if code == "PageUp"@ {
        Some("\x1b[5~"@)
    } else if code == "PageDown"@ {
        Some("\x1b[6~"@)
    } else if code == "Insert"@ {
        Some("\x1b[2~"@)
    } else if code == "Delete"@ {
        Some("\x1b[3~"@)
    } else if code == "F1"@ {
        Some("\x1bOP"@)
    } else if code == "F2"@ {
        Some("\x1bOQ"@)
    } else if code == "F3"@ {
        Some("\x1bOR"@)
    } else if code == "F4"@ {
        Some("\x1bOS"@)
    } else if code == "F5"@ {
        Some("\x1b[15~"@)
    } else if code == "F6"@ {
        Some("\x1b[17~"@)
    } else if code == "F7"@ {
        Some("\x1b[18~"@)
    } else if code == "F8"@ {
        Some("\x1b[19~"@)
    } else if code == "F9"@ {
        Some("\x1b[20~"@)
    } else if code == "F10"@ {
        Some("\x1b[21~"@)
    } else if code == "F11"@ {
        Some("\x1b[23~"@)
    } else if code == "F12"@ {
        Some("\x1b[24~"@)
    } else if code == "Enter"@ || code == "NumpadEnter"@ {
        Some("\r"@)
    } else if code == "Backspace"@ {
        Some(if ctrl { "\x08"@ } else { "\x7f"@ })
    } else if code == "Tab"@ {
        Some(if shift { "\x1b[Z"@ } else { "\t"@ })
    } else if code == "Escape"@ {
        Some("\x1b"@)
    } else {
        None
    }
}

/// What a key event sends to the terminal, if anything: a control
/// character for Ctrl and a key, else the sequence of a coded key, else the
/// printable character itself, after ESC where Alt is held.
pub open spec fn key_output(
    application: bool,
    code: Seq<char>,
    key: Seq<char>,
    ctrl: bool,
    alt: bool,
    meta: bool,
    shift: bool,
) -> Option<Seq<char>> {
    if ctrl && !alt && !meta && ctrl_char(key) is Some {
        Some(seq![ctrl_char(key)->0])
    } else if coded_sequence(application, code, ctrl, alt, shift) is Some {
        coded_sequence(application, code, ctrl, alt, shift)
    } else if single_ascii(key) && !ctrl && !meta {
        if alt {
            Some("\x1b"@.push(key[0]))
        } else {
            Some(seq![key[0]])
        }
    } else {
        None
    }
}

/// Turns key events into terminal input.
#[derive(Clone, Copy, Debug, PartialEq, Eq)]
pub struct InputHandler {
    /// Application cursor keys mode.
    application_cursor_keys: bool,
}

impl InputHandler {
    /// Whether application cursor keys mode is on.
    pub closed spec fn application_mode(self) -> bool {
        self.application_cursor_keys
    }

    /// A handler in normal cursor keys mode.
    pub fn new() -> (handler: InputHandler)
        ensures
            !handler.application_mode(),
    {
        InputHandler { application_cursor_keys: false }
    }

    /// Switches application cursor keys mode on or off.
    pub fn set_application_cursor_keys(&mut self, enabled: bool)
        ensures
            final(self).application_mode() == enabled,
    {
        self.application_cursor_keys = enabled;
    }

    /// The control character for Ctrl and a key.
    pub fn ctrl_key(&self, key: &str) -> (c: Option<char>)
        ensures
            c == ctrl_char(key@),
    {
        let sole: Option<char> = sole_ascii_char(key);
        match sole {
            None => None,
            Some(raw) => {
                let b: u8 = raw as u8;
                let up: u8 = if 97 <= b && b <= 122 {
                    b - 32
                } else {
                    b
                };
                if 65 <= up && up <= 90 {
                    Some((up - 64) as char)
                } else if up == 64 {
                    Some('\x00')
                } else if up == 91 {
                    Some('\x1b')
                } else if up == 92 {
                    Some('\x1c')
                } else if up == 93 {
                    Some('\x1d')
                } else if up == 94 {
                    Some('\x1e')
                } else if up == 95 {
                    Some('\x1f')
                } else if up == 63 {
                    Some('\x7f')
                } else {
                    None
                }
            },
        }
    }

    /// The modifier parameter of a CSI sequence.
    pub fn modifier_code(&self, ctrl: bool, alt: bool, shift: bool) -> (m: u8)
        ensures
            m == modifier_of(ctrl, alt, shift),
            m == 0 || 2 <= m <= 8,
    {
        let mut modifier: u8 = 1;
        if shift {
            modifier += 1;
        }
        if alt {
            modifier += 2;
        }
        if ctrl {
            modifier += 4;
        }
        if modifier == 1 {
            0
        } else {
            modifier
        }
    }

    /// The sequence of an arrow key with the direction letter `direction`.
    pub fn arrow_key(&self, direction: char, ctrl: bool, alt: bool, shift: bool) -> (out: String)
        ensures
            out@ == arrow_sequence(
                self.application_mode(),
                direction,
                modifier_of(ctrl, alt, shift),
            ),
    {
        let modifier: u8 = self.modifier_code(ctrl, alt, shift);
        if self.application_cursor_keys && modifier == 0 {
            let mut out = String::from_str("\x1bO");
            push_char(&mut out, direction);
            out
        } else if modifier > 0 {
            let mut out = String::from_str("\x1b[1;");
            push_char(&mut out, (48 + modifier) as char);
            push_char(&mut out, direction);
            out
        } else {
            let mut out = String::from_str("\x1b[");
            push_char(&mut out, direction);
            out
        }
    }

    /// The sequence of Home or End with the final letter `key`.
    pub fn special_key(&self, key: char, ctrl: bool, alt: bool, shift: bool) -> (out: String)
        ensures
            out@ == special_sequence(key, modifier_of(ctrl, alt, shift)),
    {
        let modifier: u8 = self.modifier_code(ctrl, alt, shift);
        if modifier > 0 {
            let mut out = String::from_str("\x1b[1;");
            push_char(&mut out, (48 + modifier) as char);
            push_char(&mut out, key);
            out
        } else {
            let mut out = String::from_str("\x1b[");
            push_char(&mut out, key);
            out
        }
    }

    /// The sequence of a key known by its code.
    fn coded_key(&self, code: &str, ctrl: bool, alt: bool, shift: bool) -> (out: Option<String>)
        ensures
            match out {
                Some(s) => coded_sequence(self.application_mode(), code@, ctrl, alt, shift)
                    == Some(s@),
                None => coded_sequence(self.application_mode(), code@, ctrl, alt, shift) is None,
            },
    {
        if str_eq(code, "ArrowUp") {
            Some(self.arrow_key('A', ctrl, alt, shift))
        } else if str_eq(code, "ArrowDown") {
            Some(self.arrow_key('B', ctrl, alt, shift))
        } else if str_eq(code, "ArrowRight") {
            Some(self.arrow_key('C', ctrl, alt, shift))
        } else if str_eq(code, "ArrowLeft") {
            Some(self.arrow_key('D', ctrl, alt, shift))
        } else if str_eq(code, "Home") {
            Some(self.special_key('H', ctrl, alt, shift))
        } else if str_eq(code, "End") {
            Some(self.special_key('F', ctrl, alt, shift))
        } else if str_eq(code, "PageUp") {
            Some(String::from_str("\x1b[5~"))
        } else if str_eq(code, "PageDown") {
            Some(String::from_str("\x1b[6~"))
        } else if str_eq(code, "Insert") {
            Some(String::from_str("\x1b[2~"))
        } else if str_eq(code, "Delete") {
            Some(String::from_str("\x1b[3~"))
        } else if str_eq(code, "F1") {
            Some(String::from_str("\x1bOP"))
        } else if str_eq(code, "F2") {
            Some(String::from_str("\x1bOQ"))
        } else if str_eq(code, "F3") {
            Some(String::from_str("\x1bOR"))
        } else if str_eq(code, "F4") {
            Some(String::from_str("\x1bOS"))
        } else if str_eq(code, "F5") {
            Some(String::from_str("\x1b[15~"))
        } else if str_eq(code, "F6") {
            Some(String::from_str("\x1b[17~"))
        } else if str_eq(code, "F7") {
            Some(String::from_str("\x1b[18~"))
        } else if str_eq(code, "F8") {
            Some(String::from_str("\x1b[19~"))
        } else if str_eq(code, "F9") {
            Some(String::from_str("\x1b[20~"))
        } else if str_eq(code, "F10") {
            Some(String::from_str("\x1b[21~"))
        } else if str_eq(code, "F11") {
            Some(String::from_str("\x1b[23~"))
        } else if str_eq(code, "F12") {
            Some(String::from_str("\x1b[24~"))
        } else if str_eq(code, "Enter") || str_eq(code, "NumpadEnter") {
            Some(String::from_str("\r"))
        } else if str_eq(code, "Backspace") {
            Some(if ctrl { String::from_str("\x08") } else { String::from_str("\x7f") })
        } else if str_eq(code, "Tab") {
            Some(if shift { String::from_str("\x1b[Z") } else { String::from_str("\t") })
        } else if str_eq(code, "Escape") {
            Some(String::from_str("\x1b"))
        } else {
            None
        }
    }

    /// Turns one key event into the text to send to the terminal, if the
    /// event sends any.
    pub fn process_key(
        &self,
        code: &str,
        key: &str,
        ctrl: bool,
        alt: bool,
        meta: bool,
        shift: bool,
    ) -> (out: Option<String>)
        ensures
            match out {
                Some(s) => key_output(
                    self.application_mode(),
                    code@,
                    key@,
                    ctrl,
                    alt,
                    meta,
                    shift,
                ) == Some(s@),
                None => key_output(self.application_mode(), code@, key@, ctrl, alt, meta, shift)
                    is None,
            },
    {
        if ctrl && !alt && !meta {
            if let Some(c) = self.ctrl_key(key) {
                return Some(char_to_string(c));
            }
        }
        if let Some(sequence) = self.coded_key(code, ctrl, alt, shift) {
            return Some(sequence);
        }
        if !ctrl && !meta {
            if let Some(c) = sole_ascii_char(key) {
                if alt {
                    let mut out = String::from_str("\x1b");
                    push_char(&mut out, c);
                    return Some(out);
                }
                return Some(char_to_string(c));
            }
        }
        None
    }
}

impl Default for InputHandler {
    fn default() -> (handler: InputHandler)
        ensures
            !handler.application_mode(),
    {
        InputHandler::new()
    }
}

} // verus!

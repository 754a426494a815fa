use crate::device::{device_path, DEVICES_ROOT};
use vstd::prelude::*;

verus! {

/// Wire code sent in place of a special key when the key is a literal character.
pub const NO_SPECIAL_KEY: i32 = -1;

/// The named keys that the remote keyboard understands.
#[derive(Debug, Clone, Copy, PartialEq, Eq, Structural)]
pub enum SpecialKey {
    Backspace,
    Tab,
    Left,
    Up,
    Right,
    Down,
    Enter,
    Delete,
    Escape,
}

impl SpecialKey {
    /// The fixed integer code of the key on the wire.
    pub open spec fn wire_code(self) -> i32 {
        match self {
            SpecialKey::Backspace => 1,
            SpecialKey::Tab => 2,
            SpecialKey::Left => 4,
            SpecialKey::Up => 5,
            SpecialKey::Right => 6,
            SpecialKey::Down => 7,
            SpecialKey::Enter => 12,
            SpecialKey::Delete => 13,
            SpecialKey::Escape => 14,
        }
    }

    pub fn code(&self) -> (r: i32)
        ensures
            r == self.wire_code(),
    {
        match self {
            SpecialKey::Backspace => 1,
            SpecialKey::Tab => 2,
            SpecialKey::Left => 4,
            SpecialKey::Up => 5,
            SpecialKey::Right => 6,
            SpecialKey::Down => 7,
            SpecialKey::Enter => 12,
            SpecialKey::Delete => 13,
            SpecialKey::Escape => 14,
        }
    }
}

/// One abstract key event: a literal character or a named special key.
#[derive(Debug, Clone, Copy, PartialEq, Eq, Structural)]
pub enum Keys {
    Char(char),
    Special(SpecialKey),
}

/// The arguments of one remote key-press command.
#[derive(Debug, Clone)]
pub struct KeyPress {
    pub text: String,
    pub special: i32,
    pub ctrl: bool,
    pub alt: bool,
    pub shift: bool,
    pub press: bool,
}

impl Keys {
    /// The text payload: the character itself, or nothing for a special key.
    pub open spec fn wire_text(self) -> Seq<char> {
        match self {
            Keys::Char(c) => seq![c],
            Keys::Special(_) => Seq::empty(),
        }
    }

    /// The special-key payload: the key's code, or the sentinel for a character.
    pub open spec fn wire_special(self) -> i32 {
        match self {
            Keys::Char(_) => NO_SPECIAL_KEY,
            Keys::Special(k) => k.wire_code(),
        }
    }

    /// The command that transmits this key: its payload, no modifiers, a press.
    pub fn key_press(&self) -> (r: KeyPress)
        ensures
            r.text@ == self.wire_text(),
            r.special == self.wire_special(),
            !r.ctrl,
            !r.alt,
            !r.shift,
            r.press,
    {
        let mut text = String::new();
        let special = match self {
            Keys::Char(c) => {
                push_char(&mut text, *c);
                NO_SPECIAL_KEY
            },
            Keys::Special(k) => k.code(),
        };
        proof {
            assert(text@ =~= self.wire_text());
        }
        KeyPress { text, special, ctrl: false, alt: false, shift: false, press: true }
    }
}

/// Interface of the keyboard object of a device.
pub const KEYBOARD_INTERFACE: &'static str = "org.kde.kdeconnect.device.remotekeyboard";

/// Property of the keyboard object that tells whether the far side accepts keys.
pub const READY_PROPERTY: &'static str = "remoteState";

/// Method of the keyboard object that presses one key.
pub const SEND_METHOD: &'static str = "sendKeyPress";

/// Suffix of a device path that addresses its keyboard.
pub const KEYBOARD_SUFFIX: &'static str = "/remotekeyboard";

/// The object path of the keyboard of the device with identifier `id`.
pub open spec fn keyboard_path(id: Seq<char>) -> Seq<char> {
    device_path(id) + KEYBOARD_SUFFIX@
}

/// Keyboard session of one device, addressed by the device's identifier.
pub struct RemoteKeyboard {
    pub id: String,
}

impl RemoteKeyboard {
    pub fn new(id: &str) -> (r: RemoteKeyboard)
        ensures
            r.id@ == id@,
    {
        RemoteKeyboard { id: id.to_owned() }
    }

    /// The path under which the keyboard's properties and methods live.
    pub fn object_path(&self) -> (r: String)
        ensures
            r@ == keyboard_path(self.id@),
    {
        let mut p = DEVICES_ROOT.to_owned();
        p.append(self.id.as_str());
        p.append(KEYBOARD_SUFFIX);
        p
    }
}

/// Relies on `String::push`: the character is appended at the end.
#[verifier::external_body]
fn push_char(s: &mut String, c: char)
    ensures
        final(s)@ == old(s)@.push(c),
{
    s.push(c)
}

} // verus!

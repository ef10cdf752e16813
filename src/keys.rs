//! Scan-code interpretation: prefix bytes, modifier keys, named keys and
//! printable keys, with the modifier state and pending prefixes kept across
//! frames.
use vstd::prelude::*;
use crate::scancode::{char_from_scancode, key_char};

verus! {

/// Prefix of a code from the extended key set.
pub const EXTENDED_PREFIX: u8 = 0xE0;
/// Prefix of a key release.
pub const RELEASE_PREFIX: u8 = 0xF0;

pub const ESCAPE_CODE: u8 = 0x76;
pub const BACKSPACE_CODE: u8 = 0x66;
/// Sent by the keyboard once its power-on self test has passed.
pub const SELF_TEST_PASSED_CODE: u8 = 0xAA;

pub const L_SHIFT: u8 = 0b0001_0000;
pub const L_CTRL: u8 = 0b0010_0000;
pub const L_ALT: u8 = 0b0100_0000;
pub const L_MOD: u8 = 0b1000_0000;

pub const R_SHIFT: u8 = 0b0000_0001;
pub const R_CTRL: u8 = 0b0000_0010;
pub const R_ALT: u8 = 0b0000_0100;
pub const R_MOD: u8 = 0b0000_1000;

pub const SHIFT: u8 = L_SHIFT | R_SHIFT;
pub const CTRL: u8 = L_CTRL | R_CTRL;
pub const ALT: u8 = L_ALT | R_ALT;
pub const MOD: u8 = L_MOD | R_MOD;

/// A decoded key press.
#[derive(Clone, Copy, Debug, PartialEq, Eq, Structural)]
pub enum KeyEvent {
    /// A character with no qualifier.
    Char(char),
    /// A character typed with ctrl held.
    Ctrl(char),
    /// A character typed with alt held (and no ctrl).
    Alt(char),
    /// A character typed with a meta key held (and no ctrl or alt).
    Meta(char),
    Escape,
    Backspace,
    /// The keyboard reports a passed self test; no key is involved.
    SelfTestPassed,
}

/// Abstract state of the interpreter: the modifier set and the two pending
/// prefix flags.
pub ghost struct KeyState {
    pub modifiers: u8,
    pub extended: bool,
    pub release: bool,
}

/// The modifier flag that a code stands for, if it is a modifier key.
/// Ctrl and alt are the right-hand keys when the extended prefix is pending.
pub open spec fn modifier_mask(code: u8, extended: bool) -> Option<u8> {
    if code == 0x12 {
        Some(L_SHIFT)
    } else if code == 0x59 {
        Some(R_SHIFT)
    } else if code == 0x14 {
        Some(if extended { R_CTRL } else { L_CTRL })
    } else if code == 0x11 {
        Some(if extended { R_ALT } else { L_ALT })
    } else if code == 0x27 {
        Some(R_MOD)
    } else if code == 0x1f {
        Some(L_MOD)
    } else {
        None
    }
}

pub open spec fn is_prefix(code: u8) -> bool {
    code == EXTENDED_PREFIX || code == RELEASE_PREFIX
}

pub open spec fn shift_held(modifiers: u8) -> bool {
    modifiers & SHIFT != 0
}

/// The event for a printable character under the held modifiers: ctrl
/// before alt before meta, one qualifier at most.
pub open spec fn qualified(modifiers: u8, c: char) -> KeyEvent {
    if modifiers & CTRL != 0 {
        KeyEvent::Ctrl(c)
    } else if modifiers & ALT != 0 {
        KeyEvent::Alt(c)
    } else if modifiers & MOD != 0 {
        KeyEvent::Meta(c)
    } else {
        KeyEvent::Char(c)
    }
}

/// The event that a code produces in state `s`.
pub open spec fn event_for(s: KeyState, code: u8) -> Option<KeyEvent> {
    if is_prefix(code) || modifier_mask(code, s.extended).is_some() || s.release {
        None
    } else if code == ESCAPE_CODE {
        Some(KeyEvent::Escape)
    } else if code == BACKSPACE_CODE {
        Some(KeyEvent::Backspace)
    } else if code == SELF_TEST_PASSED_CODE {
        Some(KeyEvent::SelfTestPassed)
    } else if s.extended {
        None
    } else {
        Some(qualified(s.modifiers, key_char(code, shift_held(s.modifiers))))
    }
}

/// The state after a code: a prefix sets its flag; any other code updates
/// the modifier it stands for, if any, and clears both flags.
pub open spec fn next_state(s: KeyState, code: u8) -> KeyState {
    if code == EXTENDED_PREFIX {
        KeyState { extended: true, ..s }
    } else if code == RELEASE_PREFIX {
        KeyState { release: true, ..s }
    } else {
        KeyState {
            modifiers: match modifier_mask(code, s.extended) {
                Some(m) => if s.release {
                    s.modifiers & !m
                } else {
                    s.modifiers | m
                },
                None => s.modifiers,
            },
            extended: false,
            release: false,
        }
    }
}

/// No prefix pending.
pub open spec fn settled(s: KeyState) -> bool {
    !s.extended && !s.release
}

/// Every code other than a prefix leaves both prefix flags clear, whether
/// or not it produced an event.
pub proof fn lemma_terminal_code_clears(s: KeyState, code: u8)
    requires
        !is_prefix(code),
    ensures
        settled(next_state(s, code)),
{
}

/// With no prefix pending, code 0x1C is the letter a: lower case without
/// shift, upper case with a shift key held, and interpreting it again gives
/// the same event from the same state.
pub proof fn lemma_letter_a_repeats(s: KeyState)
    requires
        settled(s),
    ensures
        !shift_held(s.modifiers) ==> event_for(s, 0x1C) == Some(qualified(s.modifiers, 'a')),
        shift_held(s.modifiers) ==> event_for(s, 0x1C) == Some(qualified(s.modifiers, 'A')),
        shift_held(s.modifiers | L_SHIFT),
        next_state(s, 0x1C) == s,
        event_for(next_state(s, 0x1C), 0x1C) == event_for(s, 0x1C),
{
    let m = s.modifiers;
    assert((m | L_SHIFT) & SHIFT != 0) by (bit_vector);
}

/// A code after the extended prefix is not the same key as the bare code:
/// extended 0x75 gives no event where bare 0x75 gives one, and both leave
/// the prefix flags clear.
pub proof fn lemma_extended_code_differs(s: KeyState)
    requires
        settled(s),
    ensures
        event_for(next_state(s, EXTENDED_PREFIX), 0x75) != event_for(s, 0x75),
        event_for(next_state(s, EXTENDED_PREFIX), 0x75).is_none(),
        event_for(s, 0x75).is_some(),
        settled(next_state(next_state(s, EXTENDED_PREFIX), 0x75)),
        settled(next_state(s, 0x75)),
{
}

/// Pressing and releasing left ctrl clears its flag, leaves every other
/// modifier as it was, and produces no event on any of the three codes.
pub proof fn lemma_left_ctrl_press_release(s: KeyState)
    requires
        settled(s),
    ensures
        ({
            let pressed = next_state(s, 0x14);
            let released = next_state(next_state(pressed, RELEASE_PREFIX), 0x14);
            &&& event_for(s, 0x14).is_none()
            &&& event_for(pressed, RELEASE_PREFIX).is_none()
            &&& event_for(next_state(pressed, RELEASE_PREFIX), 0x14).is_none()
            &&& pressed.modifiers & L_CTRL == L_CTRL
            &&& released.modifiers & L_CTRL == 0
            &&& released.modifiers == s.modifiers & !L_CTRL
            &&& settled(released)
        }),
{
    let m = s.modifiers;
    assert((m | 0x20u8) & 0x20u8 == 0x20u8) by (bit_vector);
    assert(((m | 0x20u8) & !0x20u8) & 0x20u8 == 0) by (bit_vector);
    assert((m | 0x20u8) & !0x20u8 == m & !0x20u8) by (bit_vector);
}

/// Keeps the modifier set and the pending prefixes between frames.
pub struct Interpreter {
    modifiers: u8,
    extended: bool,
    release: bool,
}

impl View for Interpreter {
    type V = KeyState;

    closed spec fn view(&self) -> KeyState {
        KeyState { modifiers: self.modifiers, extended: self.extended, release: self.release }
    }
}

fn modifier_of(code: u8, extended: bool) -> (r: Option<u8>)
    ensures
        r == modifier_mask(code, extended),
{
    match code {
        0x12 => Some(L_SHIFT),
        0x59 => Some(R_SHIFT),
        0x14 if extended => Some(R_CTRL),
        0x14 => Some(L_CTRL),
        0x11 if extended => Some(R_ALT),
        0x11 => Some(L_ALT),
        0x27 => Some(R_MOD),
        0x1f => Some(L_MOD),
        _ => None,
    }
}

impl Interpreter {
    /// No modifier held and no prefix pending.
    pub fn new() -> (r: Self)
        ensures
            r@ == (KeyState { modifiers: 0, extended: false, release: false }),
    {
        Interpreter { modifiers: 0, extended: false, release: false }
    }

    /// The set of held modifiers, one bit per key.
    pub fn modifiers(&self) -> (r: u8)
        ensures
            r == self@.modifiers,
    {
        self.modifiers
    }

    pub fn extended_pending(&self) -> (r: bool)
        ensures
            r == self@.extended,
    {
        self.extended
    }

    pub fn release_pending(&self) -> (r: bool)
        ensures
            r == self@.release,
    {
        self.release
    }

    /// Interprets one scan code, updating the modifier set and the pending
    /// prefixes, and returns the key event it produces, if any.
    pub fn interpret(&mut self, code: u8) -> (r: Option<KeyEvent>)
        ensures
            final(self)@ == next_state(old(self)@, code),
            r == event_for(old(self)@, code),
    {
        if code == EXTENDED_PREFIX {
            self.extended = true;
            return None;
        }
        if code == RELEASE_PREFIX {
            self.release = true;
            return None;
        }
        let mut r = None;
        match modifier_of(code, self.extended) {
            Some(mask) => {
                if self.release {
                    self.modifiers = self.modifiers & !mask;
                } else {
                    self.modifiers = self.modifiers | mask;
                }
            },
            None => {
                if !self.release {
                    if code == ESCAPE_CODE {
                        r = Some(KeyEvent::Escape);
                    } else if code == BACKSPACE_CODE {
                        r = Some(KeyEvent::Backspace);
                    } else if code == SELF_TEST_PASSED_CODE {
                        r = Some(KeyEvent::SelfTestPassed);
                    } else if !self.extended {
                        let c = char_from_scancode(code, (self.modifiers & SHIFT) != 0);
                        r = Some(
                            if self.modifiers & CTRL != 0 {
                                KeyEvent::Ctrl(c)
                            } else if self.modifiers & ALT != 0 {
                                KeyEvent::Alt(c)
                            } else if self.modifiers & MOD != 0 {
                                KeyEvent::Meta(c)
                            } else {
                                KeyEvent::Char(c)
                            },
                        );
                    }
                }
            },
        }
        self.extended = false;
        self.release = false;
        r
    }
}

} // verus!

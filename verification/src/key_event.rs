//! Key events as plain values.
//!
//! A terminal may report an upper-case letter with or without the shift
//! modifier, and shift with a lower-case letter. `KeyEvent::normalize_case`
//! brings a key into the one form in which shift is held exactly with an
//! upper-case letter. Two keys are the same key where they are equal in
//! that form: binding tables compare keys that way, and the trie binds and
//! looks up sequences with their keys in that form.

use vstd::prelude::*;

verus! {

/// A media key.
#[derive(Clone, Copy, Debug, PartialEq, Eq, Hash, Structural)]
pub enum MediaKeyCode {
    Play,
    Pause,
    PlayPause,
    Reverse,
    Stop,
    FastForward,
    Rewind,
    TrackNext,
    TrackPrevious,
    Record,
    LowerVolume,
    RaiseVolume,
    MuteVolume,
}

/// A modifier key pressed on its own.
#[derive(Clone, Copy, Debug, PartialEq, Eq, Hash, Structural)]
pub enum ModifierKeyCode {
    LeftShift,
    LeftControl,
    LeftAlt,
    LeftSuper,
    LeftHyper,
    LeftMeta,
    RightShift,
    RightControl,
    RightAlt,
    RightSuper,
    RightHyper,
    RightMeta,
    IsoLevel3Shift,
    IsoLevel5Shift,
}

/// The key that was pressed.
#[derive(Clone, Copy, Debug, PartialEq, Eq, Hash, Structural)]
pub enum KeyCode {
    Backspace,
    Enter,
    Left,
    Right,
    Up,
    Down,
    Home,
    End,
    PageUp,
    PageDown,
    Tab,
    BackTab,
    Delete,
    Insert,
    F(u8),
    Char(char),
    Null,
    Esc,
    CapsLock,
    ScrollLock,
    NumLock,
    PrintScreen,
    Pause,
    Menu,
    KeypadBegin,
    Media(MediaKeyCode),
    Modifier(ModifierKeyCode),
}

/// The modifier keys held while a key was pressed.
#[derive(Clone, Copy, Debug, PartialEq, Eq, Hash, Structural)]
pub struct KeyModifiers {
    pub shift: bool,
    pub control: bool,
    pub alt: bool,
    pub super_key: bool,
    pub hyper: bool,
    pub meta: bool,
}

/// Whether a key went down, is held, or came up.
#[derive(Clone, Copy, Debug, PartialEq, Eq, Hash, Structural)]
pub enum KeyEventKind {
    Press,
    Repeat,
    Release,
}

/// What else the keyboard reported with a key.
#[derive(Clone, Copy, Debug, PartialEq, Eq, Hash, Structural)]
pub struct KeyEventState {
    pub keypad: bool,
    pub caps_lock: bool,
    pub num_lock: bool,
}

/// One key event: the key, the modifiers held with it, its kind and the
/// state of the keyboard.
#[derive(Clone, Copy, Debug, PartialEq, Eq, Hash, Structural)]
pub struct KeyEvent {
    pub code: KeyCode,
    pub modifiers: KeyModifiers,
    pub kind: KeyEventKind,
    pub state: KeyEventState,
}

/// No modifier held.
pub open spec fn no_modifiers() -> KeyModifiers {
    KeyModifiers {
        shift: false,
        control: false,
        alt: false,
        super_key: false,
        hyper: false,
        meta: false,
    }
}

/// Only the control key held.
pub open spec fn control_only() -> KeyModifiers {
    KeyModifiers {
        shift: false,
        control: true,
        alt: false,
        super_key: false,
        hyper: false,
        meta: false,
    }
}

/// Nothing else reported.
pub open spec fn no_state() -> KeyEventState {
    KeyEventState { keypad: false, caps_lock: false, num_lock: false }
}

/// The press of `code` with `modifiers` held and nothing else reported.
pub open spec fn pressed(code: KeyCode, modifiers: KeyModifiers) -> KeyEvent {
    KeyEvent { code, modifiers, kind: KeyEventKind::Press, state: no_state() }
}

/// Whether `c` is one of the letters `A` to `Z`.
pub open spec fn is_ascii_upper(c: char) -> bool {
    'A' <= c && c <= 'Z'
}

/// The letters `a` to `z` in upper case; any other character as it is.
pub open spec fn ascii_upper(c: char) -> char {
    if 'a' <= c && c <= 'z' {
        ((c as u32) - 32) as char
    } else {
        c
    }
}

impl KeyModifiers {
    /// No modifier held.
    pub fn none() -> (modifiers: Self)
        ensures
            modifiers == no_modifiers(),
    {
        KeyModifiers {
            shift: false,
            control: false,
            alt: false,
            super_key: false,
            hyper: false,
            meta: false,
        }
    }

    /// Only the control key held.
    pub fn control() -> (modifiers: Self)
        ensures
            modifiers == control_only(),
    {
        KeyModifiers {
            shift: false,
            control: true,
            alt: false,
            super_key: false,
            hyper: false,
            meta: false,
        }
    }
}

impl KeyEventState {
    /// Nothing else reported.
    pub fn none() -> (state: Self)
        ensures
            state == no_state(),
    {
        KeyEventState { keypad: false, caps_lock: false, num_lock: false }
    }
}

impl KeyEvent {
    /// The press of `code` with `modifiers` held.
    pub fn new(code: KeyCode, modifiers: KeyModifiers) -> (event: Self)
        ensures
            event == pressed(code, modifiers),
    {
        KeyEvent { code, modifiers, kind: KeyEventKind::Press, state: KeyEventState::none() }
    }

    /// The event of the given kind for `code`, with `modifiers` held and
    /// `state` reported.
    pub fn new_with_kind_and_state(
        code: KeyCode,
        modifiers: KeyModifiers,
        kind: KeyEventKind,
        state: KeyEventState,
    ) -> (event: Self)
        ensures
            event == (KeyEvent { code, modifiers, kind, state }),
    {
        KeyEvent { code, modifiers, kind, state }
    }

    /// The key in the form in which shift is held exactly with an upper-case
    /// letter: an upper-case letter gets the shift modifier, and any other
    /// character with shift held is put into upper case. Keys that carry no
    /// character stay as they are.
    pub open spec fn case_normalized(self) -> KeyEvent {
        match self.code {
            KeyCode::Char(c) => if is_ascii_upper(c) {
                KeyEvent {
                    code: self.code,
                    modifiers: KeyModifiers {
                        shift: true,
                        control: self.modifiers.control,
                        alt: self.modifiers.alt,
                        super_key: self.modifiers.super_key,
                        hyper: self.modifiers.hyper,
                        meta: self.modifiers.meta,
                    },
                    kind: self.kind,
                    state: self.state,
                }
            } else if self.modifiers.shift {
                KeyEvent {
                    code: KeyCode::Char(ascii_upper(c)),
                    modifiers: self.modifiers,
                    kind: self.kind,
                    state: self.state,
                }
            } else {
                self
            },
            _ => self,
        }
    }

    /// Brings the key into the form in which shift and upper case agree.
    pub fn normalize_case(self) -> (event: Self)
        ensures
            event == self.case_normalized(),
    {
        match self.code {
            KeyCode::Char(c) => {
                if c >= 'A' && c <= 'Z' {
                    let mut modifiers = self.modifiers;
                    modifiers.shift = true;
                    KeyEvent { code: self.code, modifiers, kind: self.kind, state: self.state }
                } else if self.modifiers.shift {
                    let upper = if c >= 'a' && c <= 'z' {
                        ((c as u8) - 32) as char
                    } else {
                        c
                    };
                    KeyEvent {
                        code: KeyCode::Char(upper),
                        modifiers: self.modifiers,
                        kind: self.kind,
                        state: self.state,
                    }
                } else {
                    self
                }
            },
            _ => self,
        }
    }
}

/// A key sequence with every key in its normal form.
pub open spec fn normal_keys(keys: Seq<KeyEvent>) -> Seq<KeyEvent> {
    Seq::new(keys.len(), |i: int| keys[i].case_normalized())
}

/// Brings every key of a sequence into its normal form.
pub fn normalized_keys(keys: &Vec<KeyEvent>) -> (normal: Vec<KeyEvent>)
    ensures
        normal@ == normal_keys(keys@),
{
    let mut normal: Vec<KeyEvent> = Vec::new();
    let mut i: usize = 0;
    while i < keys.len()
        invariant
            i <= keys@.len(),
            normal@ == normal_keys(keys@.take(i as int)),
        decreases keys@.len() - i,
    {
        normal.push(keys[i].normalize_case());
        proof {
            assert(normal@ =~= normal_keys(keys@.take(i + 1)));
        }
        i += 1;
    }
    proof {
        assert(keys@.take(keys@.len() as int) =~= keys@);
    }
    normal
}

/// A key in its normal form is left as it is: normalizing twice is
/// normalizing once.
pub proof fn lemma_normalize_case_settles(event: KeyEvent)
    ensures
        event.case_normalized().case_normalized() == event.case_normalized(),
{
}

} // verus!

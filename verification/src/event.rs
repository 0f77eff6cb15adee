//! Input events, as the event source reports them and as an application's
//! `handle` receives them.
//!
//! The types here are plain data: a key press with its modifier flags, a
//! mouse action, a pasted text, a focus change or a new terminal size.

use vstd::prelude::*;

verus! {

/// Modifier flag of the shift key.
pub const SHIFT: u8 = 0b0000_0001;

/// Modifier flag of the control key.
pub const CONTROL: u8 = 0b0000_0010;

/// Modifier flag of the alt key.
pub const ALT: u8 = 0b0000_0100;

/// Modifier flag of the super key.
pub const SUPER: u8 = 0b0000_1000;

/// Modifier flag of the hyper key.
pub const HYPER: u8 = 0b0001_0000;

/// Modifier flag of the meta key.
pub const META: u8 = 0b0010_0000;

/// The modifier keys held while a key or mouse event occurred, one bit per
/// modifier.
#[derive(Clone, Copy, Debug, PartialEq, Eq, Hash)]
pub struct KeyModifiers {
    pub bits: u8,
}

impl KeyModifiers {
    /// At least one of the modifiers in `flags` is held.
    pub open spec fn holds_any(self, flags: u8) -> bool {
        self.bits & flags != 0
    }

    /// Every modifier in `flags` is held.
    pub open spec fn holds_all(self, flags: u8) -> bool {
        self.bits & flags == flags
    }

    /// The empty set of modifiers.
    pub fn empty() -> (modifiers: Self)
        ensures
            modifiers.bits == 0,
    {
        KeyModifiers { bits: 0 }
    }

    /// Whether no modifier is held.
    pub fn is_empty(self) -> (empty: bool)
        ensures
            empty == (self.bits == 0),
    {
        self.bits == 0
    }

    /// Whether at least one of the modifiers in `flags` is held.
    pub fn intersects(self, flags: u8) -> (hit: bool)
        ensures
            hit == self.holds_any(flags),
    {
        self.bits & flags != 0
    }

    /// Whether every modifier in `flags` is held.
    pub fn contains(self, flags: u8) -> (all: bool)
        ensures
            all == self.holds_all(flags),
    {
        self.bits & flags == flags
    }
}

/// Whether a key was pressed, is being held, or was released.
#[derive(Clone, Copy, Debug, PartialEq, Eq, Hash)]
pub enum KeyEventKind {
    Press,
    Repeat,
    Release,
}

/// Keyboard state reported with a key event, one bit per state.
#[derive(Clone, Copy, Debug, PartialEq, Eq, Hash)]
pub struct KeyEventState {
    pub bits: u8,
}

/// A media key.
#[derive(Clone, Copy, Debug, PartialEq, Eq, Hash)]
pub enum MediaKeyCode {
    Play,
    Pause,
    PlayPause,
    Reverse,
    Stop,
    FastForward,
    Rewind,
    TrackNext,
    TrackPrevious,
    Record,
    LowerVolume,
    RaiseVolume,
    MuteVolume,
}

/// A modifier key reported as a key of its own.
#[derive(Clone, Copy, Debug, PartialEq, Eq, Hash)]
pub enum ModifierKeyCode {
    LeftShift,
    LeftControl,
    LeftAlt,
    LeftSuper,
    LeftHyper,
    LeftMeta,
    RightShift,
    RightControl,
    RightAlt,
    RightSuper,
    RightHyper,
    RightMeta,
    IsoLevel3Shift,
    IsoLevel5Shift,
}

/// The key of a key event.
#[derive(Clone, Copy, Debug, PartialEq, Eq, Hash)]
pub enum KeyCode {
    Backspace,
    Enter,
    Left,
    Right,
    Up,
    Down,
    Home,
    End,
    PageUp,
    PageDown,
    Tab,
    BackTab,
    Delete,
    Insert,
    /// A function key, `F(1)` for F1.
    F(u8),
    /// A character key.
    Char(char),
    Null,
    Esc,
    CapsLock,
    ScrollLock,
    NumLock,
    PrintScreen,
    Pause,
    Menu,
    KeypadBegin,
    Media(MediaKeyCode),
    Modifier(ModifierKeyCode),
}

/// A key event: the key and the modifiers held with it.
#[derive(Clone, Copy, Debug, PartialEq, Eq, Hash)]
pub struct KeyEvent {
    pub code: KeyCode,
    pub modifiers: KeyModifiers,
    pub kind: KeyEventKind,
    pub state: KeyEventState,
}

impl KeyEvent {
    /// A press of `code` with `modifiers` held and no keyboard state.
    pub fn new(code: KeyCode, modifiers: KeyModifiers) -> (event: Self)
        ensures
            event == (KeyEvent {
                code,
                modifiers,
                kind: KeyEventKind::Press,
                state: KeyEventState { bits: 0 },
            }),
    {
        KeyEvent { code, modifiers, kind: KeyEventKind::Press, state: KeyEventState { bits: 0 } }
    }
}

/// A mouse button.
#[derive(Clone, Copy, Debug, PartialEq, Eq, Hash)]
pub enum MouseButton {
    Left,
    Right,
    Middle,
}

/// What the mouse did.
#[derive(Clone, Copy, Debug, PartialEq, Eq, Hash)]
pub enum MouseEventKind {
    Down(MouseButton),
    Up(MouseButton),
    Drag(MouseButton),
    Moved,
    ScrollDown,
    ScrollUp,
    ScrollLeft,
    ScrollRight,
}

/// A mouse event: what happened, where, and the modifiers held with it.
#[derive(Clone, Copy, Debug, PartialEq, Eq, Hash)]
pub struct MouseEvent {
    pub kind: MouseEventKind,
    pub column: u16,
    pub row: u16,
    pub modifiers: KeyModifiers,
}

/// One occurrence of external input.
#[derive(Clone, Debug, PartialEq, Eq, Hash)]
pub enum Event {
    FocusGained,
    FocusLost,
    Key(KeyEvent),
    Mouse(MouseEvent),
    /// A text pasted into the terminal.
    Paste(String),
    /// The terminal was resized to this many columns and rows.
    Resize(u16, u16),
}

impl Event {
    /// The quit chord: the character key `c` with the control modifier held,
    /// whatever else is held with it.
    pub open spec fn is_quit_chord(self) -> bool {
        &&& self matches Event::Key(key)
        &&& key.code == KeyCode::Char('c')
        &&& key.modifiers.holds_any(CONTROL)
    }
}

} // verus!

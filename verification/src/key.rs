//! Key identities as the keyboard listener reports them, and the rule that
//! picks the operation a released key stands for.

use vstd::prelude::*;

verus! {

/// A physical key, named by its position on a US keyboard.
#[derive(Clone, Copy, Debug, PartialEq, Eq, Structural, Hash)]
pub enum Key {
    Key0,
    Key1,
    Key2,
    Key3,
    Key4,
    Key5,
    Key6,
    Key7,
    Key8,
    Key9,
    A,
    B,
    C,
    D,
    E,
    F,
    G,
    H,
    I,
    J,
    K,
    L,
    M,
    N,
    O,
    P,
    Q,
    R,
    S,
    T,
    U,
    V,
    W,
    X,
    Y,
    Z,
    F1,
    F2,
    F3,
    F4,
    F5,
    F6,
    F7,
    F8,
    F9,
    F10,
    F11,
    F12,
    F13,
    F14,
    F15,
    F16,
    F17,
    F18,
    F19,
    F20,
    Escape,
    Space,
    LControl,
    RControl,
    LShift,
    RShift,
    LAlt,
    RAlt,
    Command,
    RCommand,
    LOption,
    ROption,
    LMeta,
    RMeta,
    Enter,
    Up,
    Down,
    Left,
    Right,
    Backspace,
    CapsLock,
    Tab,
    Home,
    End,
    PageUp,
    PageDown,
    Insert,
    Delete,
    Numpad0,
    Numpad1,
    Numpad2,
    Numpad3,
    Numpad4,
    Numpad5,
    Numpad6,
    Numpad7,
    Numpad8,
    Numpad9,
    NumpadSubtract,
    NumpadAdd,
    NumpadDivide,
    NumpadMultiply,
    NumpadEquals,
    NumpadEnter,
    NumpadDecimal,
    Grave,
    Minus,
    Equal,
    LeftBracket,
    RightBracket,
    BackSlash,
    Semicolon,
    Apostrophe,
    Comma,
    Dot,
    Slash,
    /// The dedicated language-toggle key of Korean keyboards.
    Hangul,
}

/// What a trigger key asks of the input-source switcher.
#[derive(Clone, Copy, Debug, PartialEq, Eq, Structural, Hash)]
pub enum Operation {
    /// Put the focused application's input back to Latin letters.
    ForceLatin,
    /// Cycle the input method, as the system's own hotkey would.
    ToggleInputMethod,
}

/// The key whose release forces Latin input.
pub open spec fn force_latin_trigger() -> Key {
    Key::Escape
}

/// The key whose release toggles the input method.
pub open spec fn toggle_trigger() -> Key {
    Key::Hangul
}

/// The operation that a released key stands for, if any.
pub open spec fn operation_for(key: Key) -> Option<Operation> {
    if key == force_latin_trigger() {
        Some(Operation::ForceLatin)
    } else if key == toggle_trigger() {
        Some(Operation::ToggleInputMethod)
    } else {
        None
    }
}

/// Maps a released key to the operation it triggers. Every key but the two
/// triggers maps to nothing.
pub fn dispatch(key: Key) -> (operation: Option<Operation>)
    ensures
        key == force_latin_trigger() ==> operation == Some(Operation::ForceLatin),
        key == toggle_trigger() ==> operation == Some(Operation::ToggleInputMethod),
        key != force_latin_trigger() && key != toggle_trigger() ==> operation.is_none(),
        operation == operation_for(key),
{
    match key {
        Key::Escape => Some(Operation::ForceLatin),
        Key::Hangul => Some(Operation::ToggleInputMethod),
        _ => None,
    }
}

} // verus!

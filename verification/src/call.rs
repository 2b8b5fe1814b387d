//! The vocabulary shared with the driver: the system calls that the switcher
//! may ask for, and the answers that come back.

use vstd::prelude::*;

verus! {

/// Window message that carries a command to an input-method window.
pub const WM_IME_CONTROL: u32 = 0x0283;

/// Command, sent with `WM_IME_CONTROL`, that sets the conversion mode.
pub const IMC_SETCONVERSIONMODE: usize = 0x0002;

/// Conversion mode in which keys give plain alphanumeric characters.
pub const IME_CMODE_ALPHANUMERIC: isize = 0;

/// Locale code of the US English keyboard layout.
pub const LATIN_LAYOUT: u32 = 0x0000_0409;

/// A key that the switcher injects as synthetic input.
#[derive(Clone, Copy, Debug, PartialEq, Eq, Structural, Hash)]
pub enum SyntheticKey {
    Control,
    Space,
}

/// How a synthetic key is moved.
#[derive(Clone, Copy, Debug, PartialEq, Eq, Structural, Hash)]
pub enum Direction {
    /// Push the key down and hold it.
    Press,
    /// Let a held key go.
    Release,
    /// Push the key down and let it go at once.
    Click,
}

/// One call into the operating system. A window is named by its handle, an
/// input source by its position in the list that `ListInputSources` gave.
#[derive(Clone, Copy, Debug, PartialEq, Eq, Structural, Hash)]
pub enum OsCall {
    /// Ask for the focused top-level window. Answer: its handle, 0 for none.
    ForegroundWindow,
    /// Ask for the input-method window that belongs to `window`. Answer: its
    /// handle, 0 for none.
    DefaultImeWindow { window: usize },
    /// Send a message to the window `target` and wait until it is handled.
    SendMessage { target: usize, message: u32, wparam: usize, lparam: isize },
    /// Load the keyboard layout with the locale code `layout`, and make it
    /// the active layout if `activate` is set.
    LoadLayout { layout: u32, activate: bool },
    /// Ask for every installed input source, the disabled ones too. Answer:
    /// the identifier of each, in the system's order.
    ListInputSources,
    /// Enable the input source at `index` of the list.
    EnableInputSource { index: usize },
    /// Make the input source at `index` of the list the active one.
    SelectInputSource { index: usize },
    /// Inject one movement of a key.
    Keystroke { key: SyntheticKey, direction: Direction },
}

/// What the driver hands back after a call.
#[derive(Clone, Debug, PartialEq, Eq)]
pub enum Reply {
    /// No call was made yet, or the call returns nothing.
    Nothing,
    /// A window handle; 0 stands for "no such window".
    Handle(usize),
    /// The identifiers of the installed input sources. `None` outside: the
    /// list could not be had. `None` inside: that source has no identifier.
    Sources(Option<Vec<Option<String>>>),
}

/// A `Reply` as contracts see it.
pub enum ReplyView {
    Nothing,
    Handle(usize),
    Sources(Option<Seq<Option<Seq<char>>>>),
}

/// The identifiers of a source list as sequences of characters.
pub open spec fn identifiers(sources: Seq<Option<String>>) -> Seq<Option<Seq<char>>> {
    Seq::new(
        sources.len(),
        |i: int|
            match sources[i] {
                Some(id) => Some(id@),
                None => None,
            },
    )
}

impl View for Reply {
    type V = ReplyView;

    open spec fn view(&self) -> ReplyView {
        match self {
            Reply::Nothing => ReplyView::Nothing,
            Reply::Handle(handle) => ReplyView::Handle(*handle),
            Reply::Sources(None) => ReplyView::Sources(None),
            Reply::Sources(Some(sources)) => ReplyView::Sources(Some(identifiers(sources@))),
        }
    }
}

/// Whether a call changes the system's input state. The others only ask.
pub open spec fn changes_input_state(call: OsCall) -> bool {
    call is SendMessage || call is LoadLayout || call is EnableInputSource
        || call is SelectInputSource || call is Keystroke
}

/// Tells the calls that change the system's input state from those that
/// only ask.
pub fn is_mutation(call: OsCall) -> (mutation: bool)
    ensures
        mutation == changes_input_state(call),
{
    match call {
        OsCall::ForegroundWindow => false,
        OsCall::DefaultImeWindow { .. } => false,
        OsCall::ListInputSources => false,
        OsCall::SendMessage { .. } => true,
        OsCall::LoadLayout { .. } => true,
        OsCall::EnableInputSource { .. } => true,
        OsCall::SelectInputSource { .. } => true,
        OsCall::Keystroke { .. } => true,
    }
}

} // verus!

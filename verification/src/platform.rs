//! The mechanisms by which a system lets its input source be switched.

use vstd::prelude::*;

verus! {

/// The mechanism that the running system offers. A build picks one and
/// keeps it for the life of the process.
#[derive(Clone, Copy, Debug, PartialEq, Eq, Structural, Hash)]
pub enum Platform {
    /// The focused window owns an input-method window that takes a message
    /// setting its conversion mode.
    WindowIme,
    /// The system keeps a list of keyboard layouts, of which one is active.
    LayoutList,
    /// The system lists its installed input sources, each with a stable
    /// identifier, and lets one be enabled and selected.
    SourceList,
    /// None of these.
    Unsupported,
}

/// Whether the input method is toggled by injecting the system's hotkey.
/// Elsewhere the system handles the toggle key itself, or cannot be reached.
pub open spec fn injects_hotkey(platform: Platform) -> bool {
    platform == Platform::SourceList
}

} // verus!

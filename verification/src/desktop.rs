//! A model of the system that the driver talks to: what it would answer, and
//! what each call does to its input state. The model exists in contracts
//! only. It gives "which calls does an operation make" and "what state does
//! it leave" a meaning that can be reasoned about.

use vstd::prelude::*;
use crate::call::{
    changes_input_state, Direction, OsCall, ReplyView, SyntheticKey, IMC_SETCONVERSIONMODE,
    WM_IME_CONTROL,
};
use crate::key::{operation_for, Key, Operation};
use crate::platform::Platform;
use crate::switcher::{operation_step, steps_left, Stage};

verus! {

/// The system as the switcher meets it.
pub struct Desktop {
    /// Handle of the focused top-level window, 0 if none is focused.
    pub foreground: usize,
    /// For each window that has one, the handle of its input-method window.
    pub ime_windows: Map<usize, usize>,
    /// The identifiers of the installed input sources, or `None` if the
    /// system does not hand the list out.
    pub sources: Option<Seq<Option<Seq<char>>>>,
    /// The conversion mode that each input-method window was last set to.
    pub conversion_modes: Map<usize, isize>,
    /// The keyboard layouts that were loaded.
    pub loaded_layouts: Set<u32>,
    /// The active keyboard layout, once one was activated.
    pub active_layout: Option<u32>,
    /// The positions of the input sources that were enabled.
    pub enabled_sources: Set<usize>,
    /// The position of the selected input source, once one was selected.
    pub selected_source: Option<usize>,
    /// The synthetic input injected so far, oldest first.
    pub injected: Seq<(SyntheticKey, Direction)>,
}

/// What an operation did: the calls it made, in order, and the system as it
/// left it.
pub struct Outcome {
    pub calls: Seq<OsCall>,
    pub desktop: Desktop,
}

/// The list of input sources, if the system hands one out, is short enough
/// for a position in it to fit a machine word.
pub open spec fn well_formed(desktop: Desktop) -> bool {
    desktop.sources matches Some(sources) ==> sources.len() <= usize::MAX
}

/// The input-method window of `window`, 0 if it has none.
pub open spec fn ime_window_of(desktop: Desktop, window: usize) -> usize {
    if desktop.ime_windows.contains_key(window) {
        desktop.ime_windows[window]
    } else {
        0
    }
}

/// What the system answers to `call`.
pub open spec fn answer(desktop: Desktop, call: OsCall) -> ReplyView {
    match call {
        OsCall::ForegroundWindow => ReplyView::Handle(desktop.foreground),
        OsCall::DefaultImeWindow { window } => ReplyView::Handle(ime_window_of(desktop, window)),
        OsCall::ListInputSources => ReplyView::Sources(desktop.sources),
        _ => ReplyView::Nothing,
    }
}

/// The system after `call`. A call that only asks leaves it as it was.
pub open spec fn effect(desktop: Desktop, call: OsCall) -> Desktop {
    match call {
        OsCall::SendMessage { target, message, wparam, lparam } => {
            if message == WM_IME_CONTROL && wparam == IMC_SETCONVERSIONMODE {
                Desktop {
                    conversion_modes: desktop.conversion_modes.insert(target, lparam),
                    ..desktop
                }
            } else {
                desktop
            }
        },
        OsCall::LoadLayout { layout, activate } => Desktop {
            loaded_layouts: desktop.loaded_layouts.insert(layout),
            active_layout: if activate {
                Some(layout)
            } else {
                desktop.active_layout
            },
            ..desktop
        },
        OsCall::EnableInputSource { index } => Desktop {
            enabled_sources: desktop.enabled_sources.insert(index),
            ..desktop
        },
        OsCall::SelectInputSource { index } => Desktop { selected_source: Some(index), ..desktop },
        OsCall::Keystroke { key, direction } => Desktop {
            injected: desktop.injected.push((key, direction)),
            ..desktop
        },
        _ => desktop,
    }
}

/// A call that only asks leaves the system as it was.
pub proof fn asking_changes_nothing(desktop: Desktop, call: OsCall)
    requires
        !changes_input_state(call),
    ensures
        effect(desktop, call) == desktop,
{
}

/// Drives `operation` from `stage` to its end against `desktop`, as a
/// faithful driver does: make the step's call, hand the answer back, repeat
/// until a step has no call.
pub open spec fn run_from(
    platform: Platform,
    operation: Operation,
    stage: Stage,
    reply: ReplyView,
    desktop: Desktop,
) -> Outcome
    decreases steps_left(stage),
{
    let step = operation_step(platform, operation, stage, reply);
    match step.call {
        Some(call) => {
            let rest = run_from(
                platform,
                operation,
                step.next,
                answer(desktop, call),
                effect(desktop, call),
            );
            Outcome { calls: seq![call] + rest.calls, desktop: rest.desktop }
        },
        None => Outcome { calls: Seq::empty(), desktop },
    }
}

/// Runs `operation` from its start.
pub open spec fn run(platform: Platform, operation: Operation, desktop: Desktop) -> Outcome {
    run_from(platform, operation, Stage::Start, ReplyView::Nothing, desktop)
}

/// What the release of `key` brings about: the operation that the key
/// triggers, run to its end, or nothing at all.
pub open spec fn release(platform: Platform, key: Key, desktop: Desktop) -> Outcome {
    match operation_for(key) {
        Some(operation) => run(platform, operation, desktop),
        None => Outcome { calls: Seq::empty(), desktop },
    }
}

} // verus!

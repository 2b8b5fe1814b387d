//! The input-source switcher: for each operation, which system call comes
//! next, given how far the operation has come and what the system answered.
//!
//! The switcher keeps nothing between two operations. Within one, the driver
//! carries the `Stage` from step to step.

use vstd::prelude::*;
use crate::call::{
    identifiers, Direction, OsCall, Reply, ReplyView, SyntheticKey, IMC_SETCONVERSIONMODE,
    IME_CMODE_ALPHANUMERIC, LATIN_LAYOUT, WM_IME_CONTROL,
};
use crate::key::Operation;
use crate::platform::{injects_hotkey, Platform};

verus! {

/// How far an operation has come.
#[derive(Clone, Copy, Debug, PartialEq, Eq, Structural, Hash)]
pub enum Stage {
    /// Nothing was asked yet.
    Start,
    /// The focused window was asked for.
    AwaitWindow,
    /// The focused window's input-method window was asked for.
    AwaitImeWindow,
    /// The list of input sources was asked for.
    AwaitSources,
    /// The source at `index` was enabled and is still to be selected.
    SourceEnabled { index: usize },
    /// The hotkey's modifier is held down.
    ModifierHeld,
    /// The hotkey's second key was clicked; the modifier is still held.
    SecondaryClicked,
    /// Nothing is left to do.
    Done,
}

/// One step of an operation: the call to make now, if any, and the stage
/// that the operation is in once the call has returned.
#[derive(Clone, Copy, Debug, PartialEq, Eq, Structural, Hash)]
pub struct Step {
    pub call: Option<OsCall>,
    pub next: Stage,
}

/// The number of steps that an operation at `stage` can still take.
pub open spec fn steps_left(stage: Stage) -> nat {
    match stage {
        Stage::Start => 3,
        Stage::AwaitWindow => 2,
        Stage::AwaitSources => 2,
        Stage::ModifierHeld => 2,
        Stage::AwaitImeWindow => 1,
        Stage::SourceEnabled { .. } => 1,
        Stage::SecondaryClicked => 1,
        Stage::Done => 0,
    }
}

/// The step that ends an operation without a call.
pub open spec fn halt() -> Step {
    Step { call: None, next: Stage::Done }
}

/// The step that makes `call` and goes on to `next`.
pub open spec fn proceed(call: OsCall, next: Stage) -> Step {
    Step { call: Some(call), next }
}

/// The identifier of the Latin input source.
pub open spec fn latin_source_id() -> Seq<char> {
    "com.apple.keylayout.ABC"@
}

/// The message that puts an input-method window into alphanumeric mode.
pub open spec fn alphanumeric_message(target: usize) -> OsCall {
    OsCall::SendMessage {
        target,
        message: WM_IME_CONTROL,
        wparam: IMC_SETCONVERSIONMODE,
        lparam: IME_CMODE_ALPHANUMERIC,
    }
}

/// The entry at `i` carries the identifier `target`.
pub open spec fn matches_at(sources: Seq<Option<Seq<char>>>, target: Seq<char>, i: int) -> bool {
    0 <= i < sources.len() && sources[i] == Some(target)
}

/// The entry at `i` carries `target`, and no entry before it does.
pub open spec fn is_first_match(
    sources: Seq<Option<Seq<char>>>,
    target: Seq<char>,
    i: int,
) -> bool {
    matches_at(sources, target, i) && forall|j: int| 0 <= j < i ==> !matches_at(sources, target, j)
}

/// The position of the first entry that carries `target`, if there is one.
pub open spec fn first_match(sources: Seq<Option<Seq<char>>>, target: Seq<char>) -> Option<int> {
    if exists|i: int| matches_at(sources, target, i) {
        Some(choose|i: int| is_first_match(sources, target, i))
    } else {
        None
    }
}

/// A position that is a first match is the first match.
pub proof fn first_match_unique(sources: Seq<Option<Seq<char>>>, target: Seq<char>, i: int)
    requires
        is_first_match(sources, target, i),
    ensures
        first_match(sources, target) == Some(i),
{
    let chosen = choose|k: int| is_first_match(sources, target, k);
    assert(is_first_match(sources, target, chosen));
    assert(matches_at(sources, target, i));
    if chosen < i {
        assert(!matches_at(sources, target, chosen));
    }
    if i < chosen {
        assert(!matches_at(sources, target, i));
    }
}

/// Where some entry carries `target`, one of them is the first, and it
/// stands at or before any other.
pub proof fn first_match_exists(sources: Seq<Option<Seq<char>>>, target: Seq<char>, at: int)
    requires
        matches_at(sources, target, at),
    ensures
        first_match(sources, target) matches Some(first) && is_first_match(sources, target, first)
            && first <= at,
    decreases at,
{
    if exists|j: int| 0 <= j < at && matches_at(sources, target, j) {
        let j = choose|j: int| 0 <= j < at && matches_at(sources, target, j);
        first_match_exists(sources, target, j);
    } else {
        assert(is_first_match(sources, target, at));
        first_match_unique(sources, target, at);
    }
}

/// What `to_english` does at each stage.
pub open spec fn english_step(platform: Platform, stage: Stage, reply: ReplyView) -> Step {
    match (platform, stage) {
        (Platform::WindowIme, Stage::Start) => proceed(
            OsCall::ForegroundWindow,
            Stage::AwaitWindow,
        ),
        (Platform::WindowIme, Stage::AwaitWindow) => match reply {
            ReplyView::Handle(window) => if window != 0 {
                proceed(OsCall::DefaultImeWindow { window }, Stage::AwaitImeWindow)
            } else {
                halt()
            },
            _ => halt(),
        },
        (Platform::WindowIme, Stage::AwaitImeWindow) => match reply {
            ReplyView::Handle(ime_window) => if ime_window != 0 {
                proceed(alphanumeric_message(ime_window), Stage::Done)
            } else {
                halt()
            },
            _ => halt(),
        },
        (Platform::LayoutList, Stage::Start) => proceed(
            OsCall::LoadLayout { layout: LATIN_LAYOUT, activate: true },
            Stage::Done,
        ),
        (Platform::SourceList, Stage::Start) => proceed(
            OsCall::ListInputSources,
            Stage::AwaitSources,
        ),
        (Platform::SourceList, Stage::AwaitSources) => match reply {
            ReplyView::Sources(Some(sources)) => match first_match(sources, latin_source_id()) {
                Some(i) => proceed(
                    OsCall::EnableInputSource { index: i as usize },
                    Stage::SourceEnabled { index: i as usize },
                ),
                None => halt(),
            },
            _ => halt(),
        },
        (Platform::SourceList, Stage::SourceEnabled { index }) => proceed(
            OsCall::SelectInputSource { index },
            Stage::Done,
        ),
        _ => halt(),
    }
}

/// What `toggle_lang` does at each stage: where the hotkey is injected, the
/// modifier goes down, the second key is clicked, the modifier comes up.
pub open spec fn toggle_step(platform: Platform, stage: Stage) -> Step {
    if injects_hotkey(platform) {
        match stage {
            Stage::Start => proceed(
                OsCall::Keystroke { key: SyntheticKey::Control, direction: Direction::Press },
                Stage::ModifierHeld,
            ),
            Stage::ModifierHeld => proceed(
                OsCall::Keystroke { key: SyntheticKey::Space, direction: Direction::Click },
                Stage::SecondaryClicked,
            ),
            Stage::SecondaryClicked => proceed(
                OsCall::Keystroke { key: SyntheticKey::Control, direction: Direction::Release },
                Stage::Done,
            ),
            _ => halt(),
        }
    } else {
        halt()
    }
}

/// The step of either operation.
pub open spec fn operation_step(
    platform: Platform,
    operation: Operation,
    stage: Stage,
    reply: ReplyView,
) -> Step {
    match operation {
        Operation::ForceLatin => english_step(platform, stage, reply),
        Operation::ToggleInputMethod => toggle_step(platform, stage),
    }
}

/// Scans `sources` from the front for the first entry whose identifier is
/// `target`. Entries without an identifier never match.
pub fn find_source(sources: &Vec<Option<String>>, target: &String) -> (found: Option<usize>)
    ensures
        match found {
            Some(i) => is_first_match(identifiers(sources@), target@, i as int),
            None => forall|j: int| !matches_at(identifiers(sources@), target@, j),
        },
        match found {
            Some(i) => first_match(identifiers(sources@), target@) == Some(i as int),
            None => first_match(identifiers(sources@), target@).is_none(),
        },
{
    let mut i: usize = 0;
    while i < sources.len()
        invariant
            i <= sources.len(),
            forall|j: int| 0 <= j < i ==> !matches_at(identifiers(sources@), target@, j),
        decreases sources.len() - i,
    {
        match &sources[i] {
            Some(id) => {
                if *id == *target {
                    proof {
                        assert(matches_at(identifiers(sources@), target@, i as int));
                        first_match_unique(identifiers(sources@), target@, i as int);
                    }
                    return Some(i);
                }
            },
            None => {},
        }
        i += 1;
    }
    None
}

/// One step of forcing Latin input.
///
/// On a window-IME system: ask for the focused window; if there is one, ask
/// for its input-method window; if there is one, send it the message that
/// sets alphanumeric mode. On a layout-list system: load the Latin layout
/// and activate it. On a source-list system: ask for the installed input
/// sources, and enable, then select, the first one that carries the Latin
/// identifier. A missing window, a missing list, a list without the Latin
/// source, an answer of the wrong shape and an unsupported system all end
/// the operation without a further call.
pub fn to_english(platform: Platform, stage: Stage, reply: &Reply) -> (step: Step)
    ensures
        step == english_step(platform, stage, reply@),
        step.call.is_none() ==> step.next == Stage::Done,
        step.call.is_some() ==> steps_left(step.next) < steps_left(stage),
{
    let halt = Step { call: None, next: Stage::Done };
    match (platform, stage) {
        (Platform::WindowIme, Stage::Start) => Step {
            call: Some(OsCall::ForegroundWindow),
            next: Stage::AwaitWindow,
        },
        (Platform::WindowIme, Stage::AwaitWindow) => match reply {
            Reply::Handle(window) => {
                if *window != 0 {
                    Step {
                        call: Some(OsCall::DefaultImeWindow { window: *window }),
                        next: Stage::AwaitImeWindow,
                    }
                } else {
                    halt
                }
            },
            _ => halt,
        },
        (Platform::WindowIme, Stage::AwaitImeWindow) => match reply {
            Reply::Handle(ime_window) => {
                if *ime_window != 0 {
                    Step {
                        call: Some(
                            OsCall::SendMessage {
                                target: *ime_window,
                                message: WM_IME_CONTROL,
                                wparam: IMC_SETCONVERSIONMODE,
                                lparam: IME_CMODE_ALPHANUMERIC,
                            },
                        ),
                        next: Stage::Done,
                    }
                } else {
                    halt
                }
            },
            _ => halt,
        },
        (Platform::LayoutList, Stage::Start) => Step {
            call: Some(OsCall::LoadLayout { layout: LATIN_LAYOUT, activate: true }),
            next: Stage::Done,
        },
        (Platform::SourceList, Stage::Start) => Step {
            call: Some(OsCall::ListInputSources),
            next: Stage::AwaitSources,
        },
        (Platform::SourceList, Stage::AwaitSources) => match reply {
            Reply::Sources(Some(sources)) => {
                let target = "com.apple.keylayout.ABC".to_owned();
                match find_source(sources, &target) {
                    Some(index) => Step {
                        call: Some(OsCall::EnableInputSource { index }),
                        next: Stage::SourceEnabled { index },
                    },
                    None => halt,
                }
            },
            _ => halt,
        },
        (Platform::SourceList, Stage::SourceEnabled { index }) => Step {
            call: Some(OsCall::SelectInputSource { index }),
            next: Stage::Done,
        },
        _ => halt,
    }
}

/// One step of toggling the input method. Where the system's hotkey is
/// injected, three steps make the chord: press the modifier, click the
/// second key, release the modifier. Elsewhere there is nothing to do.
pub fn toggle_lang(platform: Platform, stage: Stage) -> (step: Step)
    ensures
        step == toggle_step(platform, stage),
        step.call.is_none() ==> step.next == Stage::Done,
        step.call.is_some() ==> steps_left(step.next) < steps_left(stage),
{
    let halt = Step { call: None, next: Stage::Done };
    match platform {
        Platform::SourceList => match stage {
            Stage::Start => Step {
                call: Some(
                    OsCall::Keystroke { key: SyntheticKey::Control, direction: Direction::Press },
                ),
                next: Stage::ModifierHeld,
            },
            Stage::ModifierHeld => Step {
                call: Some(
                    OsCall::Keystroke { key: SyntheticKey::Space, direction: Direction::Click },
                ),
                next: Stage::SecondaryClicked,
            },
            Stage::SecondaryClicked => Step {
                call: Some(
                    OsCall::Keystroke { key: SyntheticKey::Control, direction: Direction::Release },
                ),
                next: Stage::Done,
            },
            _ => halt,
        },
        _ => halt,
    }
}

/// One step of `operation`: the driver makes the step's call, if there is
/// one, and comes back with the answer and the step's stage. A step without
/// a call ends the operation, and every call brings the end nearer, so an
/// operation makes three calls at most.
pub fn advance(platform: Platform, operation: Operation, stage: Stage, reply: &Reply) -> (step:
    Step)
    ensures
        step == operation_step(platform, operation, stage, reply@),
        step.call.is_none() ==> step.next == Stage::Done,
        step.call.is_some() ==> steps_left(step.next) < steps_left(stage),
{
    match operation {
        Operation::ForceLatin => to_english(platform, stage, reply),
        Operation::ToggleInputMethod => toggle_lang(platform, stage),
    }
}

} // verus!

//! What holds of the switcher whatever the system looks like, proved over
//! the model of the system.

use vstd::prelude::*;
use crate::call::{Direction, OsCall, SyntheticKey, LATIN_LAYOUT};
use crate::call::ReplyView;
use crate::desktop::{
    answer, effect, ime_window_of, release, run, run_from, well_formed, Desktop,
};
use crate::key::{force_latin_trigger, toggle_trigger, Key, Operation};
use crate::platform::{injects_hotkey, Platform};
use crate::switcher::{
    alphanumeric_message, first_match, first_match_exists, is_first_match, latin_source_id,
    matches_at, operation_step, steps_left, Stage,
};

verus! {

/// From any stage and against any system, an operation makes no more calls
/// than the stage leaves room for.
pub proof fn run_is_bounded(
    platform: Platform,
    operation: Operation,
    stage: Stage,
    reply: ReplyView,
    desktop: Desktop,
)
    ensures
        run_from(platform, operation, stage, reply, desktop).calls.len() <= steps_left(stage),
    decreases steps_left(stage),
{
    let step = operation_step(platform, operation, stage, reply);
    if let Some(call) = step.call {
        run_is_bounded(
            platform,
            operation,
            step.next,
            answer(desktop, call),
            effect(desktop, call),
        );
    }
}

/// An operation makes three calls at most.
pub proof fn operations_are_short(platform: Platform, operation: Operation, desktop: Desktop)
    ensures
        run(platform, operation, desktop).calls.len() <= 3,
{
    run_is_bounded(platform, operation, Stage::Start, ReplyView::Nothing, desktop);
}

/// The release of a key that is neither trigger makes no call and leaves
/// the system as it was.
pub proof fn other_keys_are_ignored(platform: Platform, key: Key, desktop: Desktop)
    requires
        key != force_latin_trigger(),
        key != toggle_trigger(),
    ensures
        release(platform, key, desktop).calls == Seq::<OsCall>::empty(),
        release(platform, key, desktop).desktop == desktop,
{
}

/// The release of a trigger runs that trigger's operation, and nothing else.
pub proof fn triggers_run_their_operation(platform: Platform, desktop: Desktop)
    ensures
        release(platform, force_latin_trigger(), desktop) == run(
            platform,
            Operation::ForceLatin,
            desktop,
        ),
        release(platform, toggle_trigger(), desktop) == run(
            platform,
            Operation::ToggleInputMethod,
            desktop,
        ),
{
}

/// With no window focused, forcing Latin input asks for the focused window
/// and makes no further call.
pub proof fn no_focused_window_ends_at_once(desktop: Desktop)
    requires
        desktop.foreground == 0,
    ensures
        run(Platform::WindowIme, Operation::ForceLatin, desktop).calls == seq![
            OsCall::ForegroundWindow,
        ],
        run(Platform::WindowIme, Operation::ForceLatin, desktop).desktop == desktop,
{
    reveal_with_fuel(run_from, 4);
    let outcome = run(Platform::WindowIme, Operation::ForceLatin, desktop);
    assert(outcome.calls =~= seq![OsCall::ForegroundWindow]);
}

/// With a focused window that has no input-method window, forcing Latin
/// input looks both up and changes nothing.
pub proof fn no_ime_window_changes_nothing(desktop: Desktop)
    requires
        desktop.foreground != 0,
        ime_window_of(desktop, desktop.foreground) == 0,
    ensures
        run(Platform::WindowIme, Operation::ForceLatin, desktop).calls == seq![
            OsCall::ForegroundWindow,
            OsCall::DefaultImeWindow { window: desktop.foreground },
        ],
        run(Platform::WindowIme, Operation::ForceLatin, desktop).desktop == desktop,
{
    reveal_with_fuel(run_from, 4);
    let outcome = run(Platform::WindowIme, Operation::ForceLatin, desktop);
    assert(outcome.calls =~= seq![
        OsCall::ForegroundWindow,
        OsCall::DefaultImeWindow { window: desktop.foreground },
    ]);
}

/// With a focused window that has an input-method window, forcing Latin
/// input looks both up and sends that window one message, the one that sets
/// alphanumeric mode. Only that window's conversion mode changes.
pub proof fn focused_ime_gets_one_message(desktop: Desktop)
    requires
        desktop.foreground != 0,
        ime_window_of(desktop, desktop.foreground) != 0,
    ensures
        run(Platform::WindowIme, Operation::ForceLatin, desktop).calls == seq![
            OsCall::ForegroundWindow,
            OsCall::DefaultImeWindow { window: desktop.foreground },
            alphanumeric_message(ime_window_of(desktop, desktop.foreground)),
        ],
        run(Platform::WindowIme, Operation::ForceLatin, desktop).desktop == (Desktop {
            conversion_modes: desktop.conversion_modes.insert(
                ime_window_of(desktop, desktop.foreground),
                0,
            ),
            ..desktop
        }),
{
    reveal_with_fuel(run_from, 4);
    let outcome = run(Platform::WindowIme, Operation::ForceLatin, desktop);
    assert(outcome.calls =~= seq![
        OsCall::ForegroundWindow,
        OsCall::DefaultImeWindow { window: desktop.foreground },
        alphanumeric_message(ime_window_of(desktop, desktop.foreground)),
    ]);
}

/// On a layout-list system, forcing Latin input is one call: load the Latin
/// layout and activate it.
pub proof fn layout_list_activates_latin(desktop: Desktop)
    ensures
        run(Platform::LayoutList, Operation::ForceLatin, desktop).calls == seq![
            OsCall::LoadLayout { layout: LATIN_LAYOUT, activate: true },
        ],
        run(Platform::LayoutList, Operation::ForceLatin, desktop).desktop.active_layout == Some(
            LATIN_LAYOUT,
        ),
{
    reveal_with_fuel(run_from, 4);
    let outcome = run(Platform::LayoutList, Operation::ForceLatin, desktop);
    assert(outcome.calls =~= seq![OsCall::LoadLayout { layout: LATIN_LAYOUT, activate: true }]);
}

/// Where the list of input sources holds the Latin identifier at some
/// position, forcing Latin input asks for the list, enables the first entry
/// that carries the identifier and selects that same entry: one enabling
/// call and one selecting call, whatever else the list holds and in
/// whatever order.
pub proof fn latin_source_is_enabled_then_selected(desktop: Desktop, at: int)
    requires
        well_formed(desktop),
        desktop.sources matches Some(sources) && matches_at(sources, latin_source_id(), at),
    ensures
        first_match(desktop.sources.unwrap(), latin_source_id()) matches Some(first) && {
            &&& is_first_match(desktop.sources.unwrap(), latin_source_id(), first)
            &&& first <= at
            &&& first as usize == first
            &&& run(Platform::SourceList, Operation::ForceLatin, desktop).calls == seq![
                OsCall::ListInputSources,
                OsCall::EnableInputSource { index: first as usize },
                OsCall::SelectInputSource { index: first as usize },
            ]
            &&& run(Platform::SourceList, Operation::ForceLatin, desktop).desktop == (Desktop {
                enabled_sources: desktop.enabled_sources.insert(first as usize),
                selected_source: Some(first as usize),
                ..desktop
            })
        },
{
    let sources = desktop.sources.unwrap();
    first_match_exists(sources, latin_source_id(), at);
    let first = first_match(sources, latin_source_id()).unwrap();
    reveal_with_fuel(run_from, 4);
    let outcome = run(Platform::SourceList, Operation::ForceLatin, desktop);
    assert(outcome.calls =~= seq![
        OsCall::ListInputSources,
        OsCall::EnableInputSource { index: first as usize },
        OsCall::SelectInputSource { index: first as usize },
    ]);
}

/// Where no entry of the list carries the Latin identifier, or the list
/// cannot be had, forcing Latin input asks for the list and changes
/// nothing.
pub proof fn missing_latin_source_changes_nothing(desktop: Desktop)
    requires
        desktop.sources matches Some(sources) ==> forall|i: int|
            !matches_at(sources, latin_source_id(), i),
    ensures
        run(Platform::SourceList, Operation::ForceLatin, desktop).calls == seq![
            OsCall::ListInputSources,
        ],
        run(Platform::SourceList, Operation::ForceLatin, desktop).desktop == desktop,
{
    reveal_with_fuel(run_from, 4);
    let outcome = run(Platform::SourceList, Operation::ForceLatin, desktop);
    assert(outcome.calls =~= seq![OsCall::ListInputSources]);
}

/// On an unsupported system neither operation makes a call.
pub proof fn unsupported_platform_does_nothing(operation: Operation, desktop: Desktop)
    ensures
        run(Platform::Unsupported, operation, desktop).calls == Seq::<OsCall>::empty(),
        run(Platform::Unsupported, operation, desktop).desktop == desktop,
{
    reveal_with_fuel(run_from, 4);
}

/// Where the hotkey is injected, toggling the input method makes exactly
/// three calls, in this order: press the modifier, click the second key,
/// release the modifier. The modifier is held across the whole click.
pub proof fn toggle_is_press_click_release(platform: Platform, desktop: Desktop)
    requires
        injects_hotkey(platform),
    ensures
        run(platform, Operation::ToggleInputMethod, desktop).calls == seq![
            OsCall::Keystroke { key: SyntheticKey::Control, direction: Direction::Press },
            OsCall::Keystroke { key: SyntheticKey::Space, direction: Direction::Click },
            OsCall::Keystroke { key: SyntheticKey::Control, direction: Direction::Release },
        ],
        run(platform, Operation::ToggleInputMethod, desktop).desktop.injected
            == desktop.injected + seq![
            (SyntheticKey::Control, Direction::Press),
            (SyntheticKey::Space, Direction::Click),
            (SyntheticKey::Control, Direction::Release),
        ],
{
    reveal_with_fuel(run_from, 4);
    let outcome = run(platform, Operation::ToggleInputMethod, desktop);
    assert(outcome.calls =~= seq![
        OsCall::Keystroke { key: SyntheticKey::Control, direction: Direction::Press },
        OsCall::Keystroke { key: SyntheticKey::Space, direction: Direction::Click },
        OsCall::Keystroke { key: SyntheticKey::Control, direction: Direction::Release },
    ]);
    assert(outcome.desktop.injected =~= desktop.injected + seq![
        (SyntheticKey::Control, Direction::Press),
        (SyntheticKey::Space, Direction::Click),
        (SyntheticKey::Control, Direction::Release),
    ]);
}

/// Where the hotkey is not injected, toggling the input method makes no
/// call: the system handles the toggle key itself.
pub proof fn toggle_without_injection_does_nothing(platform: Platform, desktop: Desktop)
    requires
        !injects_hotkey(platform),
    ensures
        run(platform, Operation::ToggleInputMethod, desktop).calls == Seq::<OsCall>::empty(),
        run(platform, Operation::ToggleInputMethod, desktop).desktop == desktop,
{
    reveal_with_fuel(run_from, 4);
}

/// Forcing Latin input twice in a row leaves the system as forcing it once
/// does, and the second run makes the calls that the first made.
pub proof fn force_latin_is_idempotent(platform: Platform, desktop: Desktop)
    requires
        well_formed(desktop),
    ensures
        run(
            platform,
            Operation::ForceLatin,
            run(platform, Operation::ForceLatin, desktop).desktop,
        ) == run(platform, Operation::ForceLatin, desktop),
{
    let once = run(platform, Operation::ForceLatin, desktop);
    let twice = run(platform, Operation::ForceLatin, once.desktop);
    match platform {
        Platform::WindowIme => {
            if desktop.foreground == 0 {
                no_focused_window_ends_at_once(desktop);
            } else if ime_window_of(desktop, desktop.foreground) == 0 {
                no_ime_window_changes_nothing(desktop);
            } else {
                focused_ime_gets_one_message(desktop);
                focused_ime_gets_one_message(once.desktop);
                assert(twice.desktop.conversion_modes =~= once.desktop.conversion_modes);
            }
        },
        Platform::LayoutList => {
            reveal_with_fuel(run_from, 4);
            assert(twice.calls =~= once.calls);
            assert(twice.desktop.loaded_layouts =~= once.desktop.loaded_layouts);
        },
        Platform::SourceList => {
            if desktop.sources matches Some(sources) && exists|i: int|
                matches_at(sources, latin_source_id(), i) {
                let sources = desktop.sources.unwrap();
                let at = choose|i: int| matches_at(sources, latin_source_id(), i);
                latin_source_is_enabled_then_selected(desktop, at);
                latin_source_is_enabled_then_selected(once.desktop, at);
                assert(twice.desktop.enabled_sources =~= once.desktop.enabled_sources);
            } else {
                missing_latin_source_changes_nothing(desktop);
            }
        },
        Platform::Unsupported => {
            unsupported_platform_does_nothing(Operation::ForceLatin, desktop);
        },
    }
}

} // verus!

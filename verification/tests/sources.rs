use vim_esc::call::{
    is_mutation, Direction, OsCall, SyntheticKey, IMC_SETCONVERSIONMODE, IME_CMODE_ALPHANUMERIC,
    LATIN_LAYOUT, WM_IME_CONTROL,
};
use vim_esc::switcher::find_source;

fn list(names: &[Option<&str>]) -> Vec<Option<String>> {
    names.iter().map(|name| name.map(|text| text.to_string())).collect()
}

#[test]
fn find_source_in_empty_list() {
    assert_eq!(find_source(&Vec::new(), &"a".to_string()), None);
}

#[test]
fn find_source_gives_the_position() {
    let sources = list(&[Some("a"), Some("b"), Some("c")]);
    assert_eq!(find_source(&sources, &"a".to_string()), Some(0));
    assert_eq!(find_source(&sources, &"b".to_string()), Some(1));
    assert_eq!(find_source(&sources, &"c".to_string()), Some(2));
    assert_eq!(find_source(&sources, &"d".to_string()), None);
}

#[test]
fn find_source_takes_the_first_of_equals() {
    let sources = list(&[Some("b"), Some("a"), Some("a"), Some("b")]);
    assert_eq!(find_source(&sources, &"a".to_string()), Some(1));
    assert_eq!(find_source(&sources, &"b".to_string()), Some(0));
}

#[test]
fn find_source_skips_entries_without_identifier() {
    let sources = list(&[None, None, Some("a"), None]);
    assert_eq!(find_source(&sources, &"a".to_string()), Some(2));
    assert_eq!(find_source(&list(&[None, None]), &"".to_string()), None);
}

#[test]
fn find_source_compares_whole_identifiers() {
    let sources = list(&[Some("com.apple.keylayout"), Some("com.apple.keylayout.ABCD"), Some("COM.APPLE.KEYLAYOUT.ABC")]);
    assert_eq!(find_source(&sources, &"com.apple.keylayout.ABC".to_string()), None);
    assert_eq!(find_source(&list(&[Some("")]), &"".to_string()), Some(0));
}

#[test]
fn only_asking_calls_are_no_mutation() {
    assert!(!is_mutation(OsCall::ForegroundWindow));
    assert!(!is_mutation(OsCall::DefaultImeWindow { window: 1 }));
    assert!(!is_mutation(OsCall::ListInputSources));
    assert!(is_mutation(OsCall::SendMessage { target: 1, message: 2, wparam: 3, lparam: 4 }));
    assert!(is_mutation(OsCall::LoadLayout { layout: 1, activate: false }));
    assert!(is_mutation(OsCall::EnableInputSource { index: 0 }));
    assert!(is_mutation(OsCall::SelectInputSource { index: 0 }));
    assert!(is_mutation(OsCall::Keystroke { key: SyntheticKey::Space, direction: Direction::Click }));
}

#[test]
fn system_constants_have_their_documented_values() {
    assert_eq!(WM_IME_CONTROL, 643);
    assert_eq!(IMC_SETCONVERSIONMODE, 2);
    assert_eq!(IME_CMODE_ALPHANUMERIC, 0);
    assert_eq!(LATIN_LAYOUT, 1033);
}

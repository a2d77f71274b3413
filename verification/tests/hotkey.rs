use fluid_voice_windows::hotkey::{
    hotkey_loop_step, is_modifier, parse_windows_shortcut, registration_for, shortcut_parts,
    validate_shortcut, virtual_key, HotkeyError, HotkeyLoopStep, HotkeyPlan,
    HotkeyRegistrationStatus, HotkeyState, HOTKEY_ID, MOD_ALT, MOD_CONTROL, MOD_NOREPEAT,
    MOD_SHIFT, MOD_WIN, WM_HOTKEY, WM_QUIT,
};
use fluid_voice_windows::settings::{HotkeyMode, HotkeySettings};

#[test]
fn rejects_shortcut_without_modifier() {
    assert!(validate_shortcut("Space").is_err());
}

#[test]
fn rejects_shortcut_without_key() {
    assert!(validate_shortcut("Ctrl+Alt").is_err());
}

#[test]
fn accepts_modifier_plus_key() {
    assert!(validate_shortcut("Ctrl+Alt+Space").is_ok());
}

#[test]
fn rejects_two_keys() {
    assert!(matches!(validate_shortcut("Ctrl+A+B"), Err(HotkeyError::InvalidShortcut)));
}

#[test]
fn parts_are_trimmed_lowercased_and_empty_ones_dropped() {
    let parts = shortcut_parts(" CTRL + +Shift+ Page Up ").unwrap();
    assert_eq!(parts.modifiers, vec!["ctrl".to_string(), "shift".to_string()]);
    assert_eq!(parts.key, "Page Up");
}

#[test]
fn modifiers_are_recognized_in_any_case() {
    assert!(is_modifier("Control"));
    assert!(is_modifier("META"));
    assert!(is_modifier("win"));
    assert!(!is_modifier("Space"));
    assert!(!is_modifier(" ctrl"));
}

#[test]
fn virtual_keys_of_letters_digits_functions_and_names() {
    assert_eq!(virtual_key("a"), Some(0x41));
    assert_eq!(virtual_key("Z"), Some(0x5A));
    assert_eq!(virtual_key("7"), Some(0x37));
    assert_eq!(virtual_key("F1"), Some(0x70));
    assert_eq!(virtual_key("f24"), Some(0x87));
    assert_eq!(virtual_key("F25"), None);
    assert_eq!(virtual_key("F0"), None);
    assert_eq!(virtual_key("f+5"), Some(0x74));
    assert_eq!(virtual_key(" Space "), Some(0x20));
    assert_eq!(virtual_key("Return"), Some(0x0D));
    assert_eq!(virtual_key("page down"), Some(0x22));
    assert_eq!(virtual_key("ArrowLeft"), Some(0x25));
    assert_eq!(virtual_key("é"), None);
    assert_eq!(virtual_key("f"), Some(0x46));
    assert_eq!(virtual_key("banana"), None);
}

#[test]
fn windows_shortcut_combines_modifier_flags() {
    let shortcut = parse_windows_shortcut("Ctrl+Alt+Space").unwrap();
    assert_eq!(shortcut.modifiers, MOD_NOREPEAT | MOD_CONTROL | MOD_ALT);
    assert_eq!(shortcut.vk, 0x20);
    let shortcut = parse_windows_shortcut("shift+win+F3").unwrap();
    assert_eq!(shortcut.modifiers, MOD_NOREPEAT | MOD_SHIFT | MOD_WIN);
    assert_eq!(shortcut.vk, 0x72);
    assert!(matches!(
        parse_windows_shortcut("Ctrl+Banana"),
        Err(HotkeyError::InvalidShortcut)
    ));
}

fn settings(shortcut: &str, enabled: bool, mode: HotkeyMode) -> HotkeySettings {
    HotkeySettings {
        enabled,
        mode,
        shortcut: shortcut.to_string(),
    }
}

#[test]
fn applying_same_settings_again_keeps_registration() {
    let mut state = HotkeyState::new();
    assert!(state.current().is_none());
    let first = settings("Ctrl+Alt+Space", true, HotkeyMode::Toggle);
    assert!(matches!(state.plan(&first), Ok(HotkeyPlan::Register)));
    let registered = state.record(&first, HotkeyRegistrationStatus::Ready);
    assert_eq!(registered.status, HotkeyRegistrationStatus::Ready);
    match state.plan(&first) {
        Ok(HotkeyPlan::Unchanged(r)) => {
            assert_eq!(r.shortcut, "Ctrl+Alt+Space");
            assert_eq!(r.status, HotkeyRegistrationStatus::Ready);
        }
        other => panic!("unexpected plan {:?}", other),
    }
    let current = state.current().unwrap();
    assert_eq!(current.shortcut, "Ctrl+Alt+Space");
    assert!(current.enabled);
}

#[test]
fn plan_refuses_hold_mode_and_bad_shortcuts() {
    let state = HotkeyState::new();
    assert!(matches!(
        state.plan(&settings("Ctrl+Space", true, HotkeyMode::Hold)),
        Err(HotkeyError::UnsupportedMode)
    ));
    assert!(matches!(
        state.plan(&settings("Space", true, HotkeyMode::Hold)),
        Err(HotkeyError::InvalidShortcut)
    ));
    assert!(matches!(
        state.plan(&settings("Ctrl+Space", false, HotkeyMode::Toggle)),
        Ok(HotkeyPlan::Disable)
    ));
}

#[test]
fn registration_copies_settings() {
    let s = settings("Alt+K", false, HotkeyMode::Toggle);
    let r = registration_for(&s, HotkeyRegistrationStatus::Disabled);
    assert!(!r.enabled);
    assert_eq!(r.shortcut, "Alt+K");
    assert_eq!(r.mode, HotkeyMode::Toggle);
}

#[test]
fn hotkey_loop_stops_emits_and_ignores() {
    assert_eq!(hotkey_loop_step(0, WM_HOTKEY, HOTKEY_ID as usize), HotkeyLoopStep::Stop);
    assert_eq!(hotkey_loop_step(-1, 0, 0), HotkeyLoopStep::Stop);
    assert_eq!(hotkey_loop_step(1, WM_QUIT, 0), HotkeyLoopStep::Stop);
    assert_eq!(hotkey_loop_step(1, WM_HOTKEY, HOTKEY_ID as usize), HotkeyLoopStep::Emit);
    assert_eq!(hotkey_loop_step(1, WM_HOTKEY, 7), HotkeyLoopStep::Ignore);
    assert_eq!(hotkey_loop_step(1, 0x0100, HOTKEY_ID as usize), HotkeyLoopStep::Ignore);
}

#[test]
fn normalized_keys_have_the_same_code() {
    assert_eq!(virtual_key("  Space "), virtual_key("space"));
    assert_eq!(virtual_key(" F12"), Some(0x7B));
    assert_eq!(virtual_key("K"), virtual_key("k"));
    assert_eq!(virtual_key("Page Up"), Some(0x21));
}

#[test]
fn disabled_settings_are_recorded_as_disabled() {
    let mut state = HotkeyState::new();
    let off = settings("Ctrl+Alt+Space", false, HotkeyMode::Toggle);
    assert!(matches!(state.plan(&off), Ok(HotkeyPlan::Disable)));
    let r = state.record(&off, HotkeyRegistrationStatus::Ready);
    assert_eq!(r.status, HotkeyRegistrationStatus::Disabled);
    assert_eq!(state.current().unwrap().status, HotkeyRegistrationStatus::Disabled);
}

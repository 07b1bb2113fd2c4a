use sayso::hotkey::{parse_hotkey, HoldTracker, HotkeyError, HotkeyEvent, TriggerKey};

fn key(s: &str) -> Option<TriggerKey> {
    parse_hotkey(s).ok()
}

#[test]
fn hotkey_names_ignore_case_and_space() {
    assert_eq!(key("RightAlt"), Some(TriggerKey::AltGr));
    assert_eq!(key("  ALTGR \t"), Some(TriggerKey::AltGr));
    assert_eq!(key("rctrl"), Some(TriggerKey::ControlRight));
    assert_eq!(key("ControlLeft"), Some(TriggerKey::ControlLeft));
    assert_eq!(key("RShift"), Some(TriggerKey::ShiftRight));
    assert_eq!(key("shiftleft"), Some(TriggerKey::ShiftLeft));
    assert_eq!(key("PauseBreak"), Some(TriggerKey::Pause));
    assert_eq!(key("ScrollLock"), Some(TriggerKey::ScrollLock));
}

#[test]
fn unknown_hotkey_reports_normal_form() {
    match parse_hotkey("  F13 ") {
        Err(HotkeyError::Unknown(n)) => assert_eq!(n, "f13"),
        other => panic!("unexpected {:?}", other),
    }
    // the console edition does not know the Option spelling
    assert!(parse_hotkey("RightOption").is_err());
}

#[test]
fn auto_repeat_is_filtered() {
    let mut t = HoldTracker::new();
    assert_eq!(t.on_target(true), Some(HotkeyEvent::Press));
    assert_eq!(t.on_target(true), None);
    assert_eq!(t.on_target(true), None);
    assert_eq!(t.on_target(false), Some(HotkeyEvent::Release));
    assert_eq!(t.on_target(false), None);
    assert_eq!(t.on_target(true), Some(HotkeyEvent::Press));
}

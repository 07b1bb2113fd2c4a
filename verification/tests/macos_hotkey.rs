use sayso::hotkey::{HotkeyError, TriggerKey};
use sayso::macos::hotkey::{
    mask_for, parse_hotkey, HotkeyEvent, TapAction, TapTracker, DEV_R_ALT, DEV_R_CMD, FLAGS_CHANGED,
    FN_MASK, TAP_DISABLED_TIMEOUT,
};

#[test]
fn option_names_map_to_masks() {
    assert_eq!(mask_for("RightOption").unwrap(), 0x40);
    assert_eq!(mask_for(" altgr ").unwrap(), DEV_R_ALT);
    assert_eq!(mask_for("RCmd").unwrap(), DEV_R_CMD);
    assert_eq!(mask_for("Globe").unwrap(), FN_MASK);
    assert_eq!(mask_for("leftcontrol").unwrap(), 0x1);
    assert_eq!(mask_for("RightControl").unwrap(), 0x2000);
    match mask_for("Pause") {
        Err(HotkeyError::Unknown(n)) => assert_eq!(n, "pause"),
        other => panic!("unexpected {:?}", other),
    }
}

#[test]
fn portable_names_accept_option() {
    assert_eq!(parse_hotkey("RightOption").unwrap(), TriggerKey::AltGr);
    assert_eq!(parse_hotkey("ralt").unwrap(), TriggerKey::AltGr);
    assert!(parse_hotkey("fn").is_err());
}

#[test]
fn tap_reports_flag_edges_only() {
    let mut t = TapTracker::new(DEV_R_ALT);
    assert_eq!(t.on_event(FLAGS_CHANGED, 0x40 | 0x80000), TapAction::Report(HotkeyEvent::Press));
    assert_eq!(t.on_event(FLAGS_CHANGED, 0x40), TapAction::Ignore);
    assert_eq!(t.on_event(10, 0), TapAction::Ignore);
    assert_eq!(t.on_event(TAP_DISABLED_TIMEOUT, 0), TapAction::Reenable);
    assert!(t.down);
    assert_eq!(t.on_event(FLAGS_CHANGED, 0x20), TapAction::Report(HotkeyEvent::Release));
    assert!(!t.down);
}

#[test]
fn mask_for_reads_its_normal_form_the_same() {
    for name in ["  RightOption ", "LCMD", "Fn", "shiftLeft", "Pause", "", "\tRightCtrl\n"] {
        let normal = name.trim().to_lowercase();
        match (mask_for(name), mask_for(&normal)) {
            (Ok(a), Ok(b)) => {
                assert_eq!(a, b);
                assert_eq!(a.count_ones(), 1);
            }
            (Err(HotkeyError::Unknown(a)), Err(HotkeyError::Unknown(b))) => {
                assert_eq!(a, normal);
                assert_eq!(b, normal);
            }
            _ => panic!("{name:?} and its normal form disagree"),
        }
    }
}

use sayso::macos::app::{default_hotkey, default_presets, AppConfig, EngineState, Status};

#[test]
fn default_hotkey_per_platform() {
    assert_eq!(default_hotkey(true), "RightOption");
    assert_eq!(default_hotkey(false), "RightAlt");
}

#[test]
fn defaults_match_services() {
    let c = AppConfig::defaults(false);
    assert_eq!(c.trigger_mode, "hold");
    assert_eq!(c.silence_threshold, 500);
    assert_eq!(c.stt_model, "whisper-large-v3-turbo");
    assert_eq!(c.llm_model, "llama-3.3-70b-versatile");
    assert_eq!(f64::from_bits(c.stt_min_logprob_bits), -0.5);
    assert!(c.llm_enabled);
    assert_eq!(c.presets.len(), 1);
    assert_eq!(c.presets[0].name, "清理润色");
    assert_eq!(c.presets[0].style, "");
    assert_eq!(c.active_style(), "");
}

#[test]
fn active_style_out_of_range_is_plain() {
    let mut c = AppConfig::defaults(true);
    c.add_preset();
    c.presets[1].style = String::from("翻译成日本网络用语");
    c.active_preset = 1;
    assert_eq!(c.active_style(), "翻译成日本网络用语");
    c.active_preset = 7;
    assert_eq!(c.active_style(), "");
    assert_eq!(c.shown_preset(), 1);
}

#[test]
fn removing_presets_clamps_selection() {
    let mut c = AppConfig::defaults(true);
    c.add_preset();
    c.add_preset();
    assert_eq!(c.presets.len(), 3);
    assert_eq!(c.presets[2].name, "新风格");
    c.active_preset = 2;
    c.remove_preset(0);
    assert_eq!(c.presets.len(), 2);
    assert_eq!(c.active_preset, 1);
    c.active_preset = 0;
    c.remove_preset(1);
    assert_eq!(c.active_preset, 0);
    assert_eq!(default_presets().len(), 1);
    assert_eq!(default_presets()[0].name, "清理润色");
    assert_eq!(default_presets()[0].style, "");
}

#[test]
fn engine_state_labels_and_colours() {
    assert_eq!(EngineState::Idle.label(), "空闲");
    assert_eq!(EngineState::Error.label(), "出错");
    assert_eq!(EngineState::Recording.color(), [0, 122, 255]);
    assert_eq!(EngineState::Transcribing.color(), EngineState::Polishing.color());
    assert_eq!(EngineState::Pasting.color(), [52, 199, 89]);
}

#[test]
fn status_starts_idle() {
    let s = Status::default();
    assert_eq!(s.state, EngineState::Idle);
    assert!(s.history.is_empty());
    assert!(!s.permission_problem);
}

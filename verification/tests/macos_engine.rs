use sayso::hotkey::HotkeyEvent;
use sayso::macos::app::{AppConfig, EngineState, Status};
use sayso::macos::engine::{
    is_toggle_mode, resolve_key, Input, Session, Step, LISTENER_GONE_MESSAGE, NO_KEY_MESSAGE,
};

fn config() -> AppConfig {
    let mut c = AppConfig::defaults(true);
    c.api_key = "  cfg-key  ".to_string();
    c.proxy = "http://127.0.0.1:7890".to_string();
    c
}

fn run_to_transcribe(st: &mut Status, cfg: AppConfig) -> Session {
    let (s, step) = Session::new();
    assert!(matches!(step, Step::WaitFor(HotkeyEvent::Press)));
    let (s, step) = s.step(st, Input::Pressed(cfg));
    assert!(matches!(step, Step::Record { stop: HotkeyEvent::Release }));
    assert_eq!(st.state, EngineState::Recording);
    let (s, step) = s.step(st, Input::Stopped);
    assert!(matches!(step, Step::EndRecording));
    let (s, step) = s.step(
        st,
        Input::Captured { peak: 4000, held_nanos: 900_000_000, env_key: None },
    );
    match step {
        Step::Transcribe { cfg, peak } => {
            assert_eq!(peak, 4000);
            assert_eq!(cfg.api_key, "cfg-key");
            assert_eq!(cfg.proxy.as_deref(), Some("http://127.0.0.1:7890"));
            assert!(cfg.prompt.is_some());
        }
        _ => panic!("expected a transcription"),
    }
    assert_eq!(st.state, EngineState::Transcribing);
    assert_eq!(st.last_peak, 4000);
    s
}

#[test]
fn full_session_pastes_and_records_history() {
    let mut st = Status::default();
    let s = run_to_transcribe(&mut st, config());
    let (s, step) = s.step(&mut st, Input::Transcribed("  打开设置 ".to_string()));
    match &step {
        Step::Polish { cfg, text } => {
            assert_eq!(text, "打开设置");
            assert!(cfg.enabled);
            assert!(cfg.system_prompt.contains("保持输入的原语言与语气"));
        }
        _ => panic!("expected polishing"),
    }
    assert_eq!(st.last_raw, "打开设置");
    assert_eq!(st.state, EngineState::Polishing);
    let (s, step) = s.step(&mut st, Input::Polished(Some("打开设置。".to_string())));
    assert!(matches!(&step, Step::Paste(t) if t == "打开设置。"));
    assert_eq!(st.state, EngineState::Pasting);
    let (s, step) = s.step(&mut st, Input::Pasted(None));
    assert!(matches!(step, Step::Finish));
    assert!(matches!(s, Session::Done));
    assert_eq!(st.state, EngineState::Idle);
    assert_eq!(st.last_final, "打开设置。");
    assert_eq!(st.history, vec!["打开设置。".to_string()]);
}

#[test]
fn failed_polish_falls_back_to_raw_and_paste_error_is_shown() {
    let mut st = Status::default();
    let s = run_to_transcribe(&mut st, config());
    let (s, _) = s.step(&mut st, Input::Transcribed("raw text".to_string()));
    let (s, step) = s.step(&mut st, Input::Polished(None));
    assert!(matches!(&step, Step::Paste(t) if t == "raw text"));
    let (_, _) = s.step(&mut st, Input::Pasted(Some("no access".to_string())));
    assert_eq!(st.last_error, "粘贴失败: no access");
    assert_eq!(st.last_final, "raw text");
    assert_eq!(st.state, EngineState::Idle);
}

#[test]
fn quiet_short_or_keyless_sessions_stop_early() {
    let mut st = Status::default();
    let (s, _) = Session::new();
    let (s, _) = s.step(&mut st, Input::Pressed(config()));
    let (s, _) = s.step(&mut st, Input::Stopped);
    let (s, step) = s.step(&mut st, Input::Captured { peak: 499, held_nanos: 5_000_000_000, env_key: None });
    assert!(matches!(step, Step::Finish) && matches!(s, Session::Done));
    assert_eq!(st.state, EngineState::Idle);
    assert_eq!(st.last_peak, 499);

    let (s, _) = Session::new();
    let (s, _) = s.step(&mut st, Input::Pressed(config()));
    let (s, _) = s.step(&mut st, Input::Stopped);
    let (_, step) = s.step(&mut st, Input::Captured { peak: 9000, held_nanos: 299_000_000, env_key: None });
    assert!(matches!(step, Step::Finish));

    let mut c = config();
    c.api_key = "   ".to_string();
    let (s, _) = Session::new();
    let (s, _) = s.step(&mut st, Input::Pressed(c));
    let (s, _) = s.step(&mut st, Input::Stopped);
    let (_, step) = s.step(&mut st, Input::Captured { peak: 9000, held_nanos: 1_000_000_000, env_key: Some(" ".to_string()) });
    assert!(matches!(step, Step::Finish));
    assert_eq!(st.state, EngineState::Error);
    assert_eq!(st.last_error, NO_KEY_MESSAGE);
}

#[test]
fn blank_transcript_is_not_polished() {
    let mut st = Status::default();
    let s = run_to_transcribe(&mut st, config());
    let (s, step) = s.step(&mut st, Input::Transcribed(" \n ".to_string()));
    assert!(matches!(step, Step::Finish) && matches!(s, Session::Done));
    assert_eq!(st.state, EngineState::Idle);
    assert_eq!(st.last_raw, "");
}

#[test]
fn toggle_mode_stops_on_second_press() {
    let mut c = config();
    c.trigger_mode = " Toggle ".to_string();
    let mut st = Status::default();
    let (s, _) = Session::new();
    let (_, step) = s.step(&mut st, Input::Pressed(c));
    assert!(matches!(step, Step::Record { stop: HotkeyEvent::Press }));
    assert!(is_toggle_mode("TAP"));
    assert!(!is_toggle_mode("hold"));
}

#[test]
fn unexpected_input_ends_session_untouched() {
    let mut st = Status::default();
    let (s, _) = Session::new();
    let (s, step) = s.step(&mut st, Input::Stopped);
    assert!(matches!(step, Step::Finish) && matches!(s, Session::Done));
    assert_eq!(st.state, EngineState::Idle);
}

#[test]
fn history_keeps_newest_twenty() {
    let mut st = Status::default();
    for i in 0..25 {
        let s = run_to_transcribe(&mut st, config());
        let (s, _) = s.step(&mut st, Input::Transcribed(format!("t{i}")));
        let (s, _) = s.step(&mut st, Input::Polished(None));
        let _ = s.step(&mut st, Input::Pasted(None));
    }
    assert_eq!(st.history.len(), 20);
    assert_eq!(st.history[0], "t24");
    assert_eq!(st.history[19], "t5");
}

#[test]
fn env_key_wins_over_config() {
    assert_eq!(resolve_key(Some("env".into()), " cfg "), Some("env".into()));
    assert_eq!(resolve_key(Some("  ".into()), " cfg "), Some("cfg".into()));
    assert_eq!(resolve_key(None, "   "), None);
}

#[test]
fn listener_loss_raises_permission_hint() {
    let mut st = Status::default();
    assert!(st.session_failed("boom".into(), false));
    assert_eq!(st.last_error, "boom");
    assert!(!st.permission_problem);
    assert!(!st.session_failed("closed".into(), true));
    assert!(st.permission_problem);
    assert_eq!(st.last_error, LISTENER_GONE_MESSAGE);
    assert_eq!(st.state, EngineState::Error);
}

use sayso::stt::{transcript_text, Config, DEFAULT_BASE_URL, DEFAULT_PROMPT};

#[test]
fn stt_prompt_can_be_switched_off() {
    let c = Config::from_env("k".into(), None, None, None);
    assert_eq!(c.prompt.as_deref(), Some(DEFAULT_PROMPT));
    assert_eq!(c.base_url, DEFAULT_BASE_URL);
    let c = Config::from_env("k".into(), Some("  ".into()), None, None);
    assert_eq!(c.prompt, None);
    let c = Config::from_env("k".into(), Some("术语: Rust".into()), Some("http://b".into()), None);
    assert_eq!(c.prompt.as_deref(), Some("术语: Rust"));
    assert_eq!(c.base_url, "http://b");
    assert_eq!(c.model, "whisper-large-v3-turbo");
}

#[test]
fn transcript_is_trimmed() {
    assert_eq!(transcript_text("  你好。 \n"), "你好。");
}

use sayso::llm::{passes_through, reply_text, Config, DEFAULT_MODEL, DEFAULT_SYSTEM_PROMPT};

fn cfg(enabled: Option<&str>) -> Config {
    Config::from_env("k".to_string(), enabled.map(|s| s.to_string()), None, None, None)
}

#[test]
fn llm_switch_words() {
    assert!(cfg(None).enabled);
    assert!(!cfg(Some(" OFF ")).enabled);
    assert!(!cfg(Some("false")).enabled);
    assert!(!cfg(Some("0")).enabled);
    assert!(!cfg(Some("No")).enabled);
    assert!(cfg(Some("yes")).enabled);
    assert!(cfg(Some("")).enabled);
}

#[test]
fn llm_defaults_and_overrides() {
    let c = cfg(None);
    assert_eq!(c.model, DEFAULT_MODEL);
    assert_eq!(c.system_prompt, DEFAULT_SYSTEM_PROMPT);
    assert!(c.system_prompt.starts_with("你是一个口述转写清理助手。"));
    let c = Config::from_env(
        "k".into(),
        None,
        Some("http://x".into()),
        Some("m".into()),
        Some("p".into()),
    );
    assert_eq!((c.base_url.as_str(), c.model.as_str(), c.system_prompt.as_str()), ("http://x", "m", "p"));
}

#[test]
fn polish_skips_blank_or_disabled() {
    assert!(passes_through("   ", &cfg(None)));
    assert!(passes_through("hello", &cfg(Some("off"))));
    assert!(!passes_through("hello", &cfg(None)));
}

#[test]
fn reply_takes_first_choice_trimmed() {
    assert_eq!(reply_text(&vec![" a \n".to_string(), "b".to_string()]).unwrap(), "a");
    assert!(reply_text(&vec![]).is_err());
}

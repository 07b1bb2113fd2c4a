use sayso::net::{endpoint_url, env_proxy, give_up_message, resolve_proxy, Attempt, Retry};

#[test]
fn endpoint_drops_trailing_slashes() {
    assert_eq!(
        endpoint_url("https://api.groq.com/openai/v1///", "/chat/completions"),
        "https://api.groq.com/openai/v1/chat/completions"
    );
    assert_eq!(endpoint_url("http://h", "/audio/transcriptions"), "http://h/audio/transcriptions");
}

#[test]
fn configured_proxy_wins_unless_blank() {
    let s = |x: &str| Some(x.to_string());
    assert_eq!(resolve_proxy(&s("http://cfg"), s("http://up"), s("http://low")), s("http://cfg"));
    assert_eq!(resolve_proxy(&s("   "), s("http://up"), s("http://low")), s("http://up"));
    assert_eq!(resolve_proxy(&None, None, s("http://low")), s("http://low"));
    assert_eq!(resolve_proxy(&None, None, None), None);
}

#[test]
fn env_proxy_order() {
    let s = |x: &str| Some(x.to_string());
    assert_eq!(env_proxy(None, s("b"), s("c"), s("d")), s("b"));
    assert_eq!(env_proxy(None, None, None, s("d")), s("d"));
    assert_eq!(env_proxy(s("a"), s("b"), None, None), s("a"));
}

#[test]
fn retry_schedule_is_five_attempts() {
    let mut r = Retry::new();
    let mut delays = Vec::new();
    while let Attempt::Send { delay_ms } = r.next() {
        delays.push(delay_ms);
        r.failed(format!("503 #{}", delays.len()));
    }
    assert_eq!(delays, vec![0, 250, 500, 750, 1000]);
    assert_eq!(r.last, "503 #5");
    assert_eq!(
        give_up_message("LLM", "http://h/x", &r.last),
        "LLM http://h/x 重试 5 次仍失败：503 #5"
    );
}

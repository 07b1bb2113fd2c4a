use sayso::macos::llm::{
    compose_system_prompt, passes_through, reply_text, user_message, Config, PROMPT_BASE,
    PROMPT_PLAIN, PROMPT_TAIL,
};

#[test]
fn blank_style_means_plain_cleanup() {
    let p = compose_system_prompt("   ");
    assert_eq!(p, format!("{PROMPT_BASE}\n\n{PROMPT_PLAIN}\n\n{PROMPT_TAIL}"));
    assert_eq!(p, compose_system_prompt(""));
    assert!(p.starts_with("你是一个文本转换器"));
}

#[test]
fn style_line_is_trimmed_into_prompt() {
    let p = compose_system_prompt("  改写成西海岸口语英语 \n");
    assert!(p.contains("（风格优先，可改变语言/语气/用词）：\n改写成西海岸口语英语\n\n输出规则："));
    assert!(p.ends_with("脏话也要照译成对应的脏话。"));
}

#[test]
fn user_message_wraps_text() {
    let m = user_message("RR是什么");
    assert!(m.starts_with("下面 <stt></stt> 标签之间"));
    assert!(m.ends_with("只输出处理后的文字本身：\n<stt>\nRR是什么\n</stt>"));
}

#[test]
fn polish_passthrough_rules() {
    let mut c = Config {
        base_url: String::new(),
        model: String::new(),
        api_key: String::new(),
        proxy: None,
        system_prompt: String::new(),
        enabled: true,
    };
    assert!(passes_through(" \n", &c));
    assert!(!passes_through("x", &c));
    c.enabled = false;
    assert!(passes_through("x", &c));
    assert_eq!(reply_text(&vec!["\n结果 ".to_string()]).unwrap(), "结果");
}

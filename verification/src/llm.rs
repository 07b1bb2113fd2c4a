//! Polishing a transcript with a chat-completions model: settings read from the
//! environment, when a request is needed at all, and the reply.

use vstd::prelude::*;
use vstd::string::*;
use crate::text::{blank, is_blank, to_lowercase, trim, trimmed, unicode_lowercase};

verus! {

pub const DEFAULT_BASE_URL: &'static str = "https://api.groq.com/openai/v1";

pub const DEFAULT_MODEL: &'static str = "llama-3.3-70b-versatile";

/// The clean-up instructions: same language, keep English technical terms, add
/// punctuation, drop filler words, fix near-homophones, output only the text.
pub const DEFAULT_SYSTEM_PROMPT: &'static str = "你是一个口述转写清理助手。输入是麦克风转写出的原始文本，可能包含：缺失的标点、口头禅、被吞掉的助词（了/的/个）、以及音近字识别错误。\n\n任务：\n- 在输入的原语言风格下加合适的标点（中文用，。？！；英文用 , . ? !）\n- 删掉明显的口头禅（嗯、啊、那个、就是、um、uh、you know、like）\n- 基于上下文修复明显的音近错字。例如\"我们今天先把登录'我们快'的 token 逻辑修好\"——\"我们快\"在\"登录___的 token\"语境下显然指\"模块\"\n- 英文技术术语保持英文（loading、token、API、React、TypeScript、dashboard 等不要翻译）\n- 输出语言与输入语言一致，不要做语言翻译\n- 不要扩写、不要补充信息、不要改变说话人的语气\n\n输出要求：\n- 只输出清理后的文本本身，不要任何前缀（\"以下是…\"、\"修订后：\"、引号）\n- 不要解释你做了什么\n- 不确定时保留原词，不要凭空创造内容\n- 输入若是空字符串或完全无法理解，就原样输出\n";

/// The chat-completions endpoint path.
pub const CHAT_PATH: &'static str = "/chat/completions";

/// Settings of the polishing step.
pub struct Config {
    pub base_url: String,
    pub model: String,
    pub api_key: String,
    pub system_prompt: String,
    pub enabled: bool,
}

/// `SAYSO_LLM_ENABLED` switches polishing off when, trimmed and lower-cased, it reads
/// `false`, `0`, `off` or `no`; unset means on.
pub open spec fn enabled_by(var: Option<Seq<char>>) -> bool {
    match var {
        None => true,
        Some(v) => {
            let n = unicode_lowercase(trimmed(v));
            !(n == "false"@ || n == "0"@ || n == "off"@ || n == "no"@)
        },
    }
}

pub open spec fn or_default(var: Option<Seq<char>>, default: Seq<char>) -> Seq<char> {
    match var {
        Some(v) => v,
        None => default,
    }
}

pub open spec fn opt_seq_view(o: Option<String>) -> Option<Seq<char>> {
    match o {
        Some(s) => Some(s@),
        None => None,
    }
}

fn value_or(var: Option<String>, default: &str) -> (r: String)
    ensures
        r@ == or_default(opt_seq_view(var), default@),
{
    match var {
        Some(v) => v,
        None => String::from_str(default),
    }
}

fn is_off_word(n: &str) -> (b: bool)
    ensures
        b == (n@ == "false"@ || n@ == "0"@ || n@ == "off"@ || n@ == "no"@),
{
    crate::text::same_text(n, "false") || crate::text::same_text(n, "0")
        || crate::text::same_text(n, "off") || crate::text::same_text(n, "no")
}

impl Config {
    /// The settings from the environment: `api_key`, and the values of
    /// `SAYSO_LLM_ENABLED`, `SAYSO_LLM_BASE_URL`, `SAYSO_LLM_MODEL` and
    /// `SAYSO_LLM_PROMPT` when set; unset ones take the defaults.
    pub fn from_env(
        api_key: String,
        enabled_var: Option<String>,
        base_url_var: Option<String>,
        model_var: Option<String>,
        prompt_var: Option<String>,
    ) -> (r: Config)
        ensures
            r.api_key@ == api_key@,
            r.enabled == enabled_by(opt_seq_view(enabled_var)),
            r.base_url@ == or_default(opt_seq_view(base_url_var), DEFAULT_BASE_URL@),
            r.model@ == or_default(opt_seq_view(model_var), DEFAULT_MODEL@),
            r.system_prompt@ == or_default(opt_seq_view(prompt_var), DEFAULT_SYSTEM_PROMPT@),
    {
        let enabled = match enabled_var {
            None => true,
            Some(v) => {
                let t = trim(v.as_str());
                let l = to_lowercase(t.as_str());
                !is_off_word(l.as_str())
            },
        };
        Config {
            base_url: value_or(base_url_var, DEFAULT_BASE_URL),
            model: value_or(model_var, DEFAULT_MODEL),
            api_key,
            system_prompt: value_or(prompt_var, DEFAULT_SYSTEM_PROMPT),
            enabled,
        }
    }
}

/// True when the text is returned as it is, without a request: polishing is off
/// or the text is blank.
pub fn passes_through(text: &str, cfg: &Config) -> (b: bool)
    ensures
        b == (!cfg.enabled || is_blank(text@)),
{
    !cfg.enabled || blank(text)
}

/// Why a reply carried no text.
#[derive(Debug)]
pub enum ReplyError {
    /// The reply listed no choices.
    NoChoices,
}

/// The polished text of a reply: its first choice's content, trimmed.
pub fn reply_text(contents: &Vec<String>) -> (r: Result<String, ReplyError>)
    ensures
        contents@.len() == 0 ==> r is Err,
        contents@.len() > 0 ==> (r matches Ok(t) && t@ == trimmed(contents@[0]@)),
{
    if contents.len() == 0 {
        Err(ReplyError::NoChoices)
    } else {
        Ok(trim(contents[0].as_str()))
    }
}

} // verus!

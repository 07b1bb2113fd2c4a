//! Speech-to-text settings read from the environment, and the transcript.

use vstd::prelude::*;
use vstd::string::*;
use crate::llm::{opt_seq_view, or_default};
use crate::text::{blank, is_blank, trim, trimmed};

verus! {

pub const DEFAULT_BASE_URL: &'static str = "https://api.groq.com/openai/v1";

pub const DEFAULT_MODEL: &'static str = "whisper-large-v3-turbo";

/// Whisper's guiding prompt: a sample of mixed Chinese/English technical speech and
/// a glossary of technical terms.
pub const DEFAULT_PROMPT: &'static str = "以下是技术对话口述转写示例：我们今天修了登录模块的 token 逻辑，然后给 dashboard 加了个 loading 状态。涉及术语：模块、组件、用户、登录、注册、密码、token、API、接口、bug、merge、commit、PR、pull request、loading、error、warning、success、状态、React、Vue、TypeScript、Python、Rust、SDK、Redis、SQL、数据库、缓存、配置、settings、dashboard、frontend、backend、调试、部署、build、deploy。";

/// The transcription endpoint path.
pub const TRANSCRIBE_PATH: &'static str = "/audio/transcriptions";

/// Settings of the transcription step.
pub struct Config {
    pub base_url: String,
    pub model: String,
    pub api_key: String,
    pub prompt: Option<String>,
}

/// The prompt sent: `SAYSO_STT_PROMPT` when set and not blank, none when set but
/// blank (explicitly off), the default when unset.
pub open spec fn prompt_by(var: Option<Seq<char>>) -> Option<Seq<char>> {
    match var {
        None => Some(DEFAULT_PROMPT@),
        Some(v) => if is_blank(v) {
            None
        } else {
            Some(v)
        },
    }
}

impl Config {
    /// The settings from the environment: `api_key`, and the values of
    /// `SAYSO_STT_PROMPT`, `SAYSO_STT_BASE_URL` and `SAYSO_STT_MODEL` when set.
    pub fn from_env(
        api_key: String,
        prompt_var: Option<String>,
        base_url_var: Option<String>,
        model_var: Option<String>,
    ) -> (r: Config)
        ensures
            r.api_key@ == api_key@,
            opt_seq_view(r.prompt) == prompt_by(opt_seq_view(prompt_var)),
            r.base_url@ == or_default(opt_seq_view(base_url_var), DEFAULT_BASE_URL@),
            r.model@ == or_default(opt_seq_view(model_var), DEFAULT_MODEL@),
    {
        let prompt = match prompt_var {
            Some(v) => if blank(v.as_str()) {
                None
            } else {
                Some(v)
            },
            None => Some(String::from_str(DEFAULT_PROMPT)),
        };
        let base_url = match base_url_var {
            Some(v) => v,
            None => String::from_str(DEFAULT_BASE_URL),
        };
        let model = match model_var {
            Some(v) => v,
            None => String::from_str(DEFAULT_MODEL),
        };
        Config { base_url, model, api_key, prompt }
    }
}

/// The transcript of a reply: its text, trimmed.
pub fn transcript_text(text: &str) -> (r: String)
    ensures
        r@ == trimmed(text@),
{
    trim(text)
}

} // verus!

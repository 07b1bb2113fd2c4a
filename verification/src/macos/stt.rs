//! Speech-to-text request settings and the filter that drops transcripts of noise.

use vstd::prelude::*;
use vstd::string::*;
use crate::text::{all_ascii, ascii_lower_seq, lemma_trim_idempotent, to_lowercase, trim, trim_by, trim_class, trimmed, unicode_lowercase, TrimClass};

verus! {

pub const DEFAULT_BASE_URL: &'static str = "https://api.groq.com/openai/v1";

pub const DEFAULT_MODEL: &'static str = "whisper-large-v3-turbo";

/// `-0.5`, the default `min_logprob`, as the bit pattern of an `f64`.
pub const DEFAULT_MIN_LOGPROB_BITS: u64 = 0xBFE0_0000_0000_0000;

/// Whisper's guiding prompt: a sample of mixed Chinese/English technical speech and
/// a glossary of technical terms.
pub const DEFAULT_PROMPT: &'static str = "以下是技术对话口述转写示例：我们今天修了登录模块的 token 逻辑，然后给 dashboard 加了个 loading 状态。涉及术语：模块、组件、用户、登录、注册、密码、token、API、接口、bug、merge、commit、PR、pull request、loading、error、warning、success、状态、React、Vue、TypeScript、Python、Rust、SDK、Redis、SQL、数据库、缓存、配置、settings、dashboard、frontend、backend、调试、部署、build、deploy。";

/// The transcription endpoint path.
pub const TRANSCRIBE_PATH: &'static str = "/audio/transcriptions";

/// A recording at least this loud is real speech, whatever the model's confidence.
pub const LOUD_PEAK: i16 = 2000;

/// Settings of one transcription request.
pub struct Config {
    pub base_url: String,
    pub model: String,
    pub api_key: String,
    pub proxy: Option<String>,
    pub prompt: Option<String>,
    /// Segment-average log-probability below which quiet recordings are dropped as
    /// noise, as the bit pattern of an `f64`.
    pub min_logprob_bits: u64,
}

/// Phrases Whisper is known to hallucinate on silence, in normal form.
pub open spec fn blocklisted(n: Seq<char>) -> bool {
    ||| n == "thank you"@
    ||| n == "thanks for watching"@
    ||| n == "thank you for watching"@
    ||| n == "please subscribe"@
    ||| n == "you"@
    ||| n == "bye"@
    ||| n == "感谢观看"@
    ||| n == "请不吝点赞订阅转发打赏支持明镜与点点栏目"@
    ||| n == "字幕由amara.org社区提供"@
}

/// The normal form a transcript is compared in: trimmed, stripped of surrounding
/// whitespace and punctuation, lower-cased (ASCII lower-casing on an all-ASCII text,
/// the Unicode lower-case mapping otherwise, as `to_lowercase` does).
pub open spec fn normal_form(text: Seq<char>) -> Seq<char> {
    let t = trim_by(trimmed(text), TrimClass::SpaceAndPunct);
    if all_ascii(t) {
        ascii_lower_seq(t)
    } else {
        unicode_lowercase(t)
    }
}

/// A transcript is taken for noise when its normal form is empty, when the audio was
/// quiet and the model unsure (`below_min_logprob`), or when it is a known
/// silence hallucination.
pub open spec fn is_hallucination(text: Seq<char>, below_min_logprob: bool, peak: i16) -> bool {
    let n = normal_form(text);
    ||| n.len() == 0
    ||| (peak < LOUD_PEAK && below_min_logprob)
    ||| blocklisted(n)
}

fn in_list(a: &str, names: &[&str]) -> (b: bool)
    ensures
        b == exists|i: int| 0 <= i < names@.len() && a@ == names@[i]@,
{
    let mut i: usize = 0;
    while i < names.len()
        invariant
            i <= names@.len(),
            forall|j: int| 0 <= j < i ==> a@ != #[trigger] names@[j]@,
        decreases names@.len() - i,
    {
        if crate::text::same_text(a, names[i]) {
            return true;
        }
        i = i + 1;
    }
    false
}

/// Decides whether a transcript is noise rather than speech. `below_min_logprob`
/// tells whether the segments' mean log-probability was reported and fell below the
/// configured minimum.
pub fn looks_like_hallucination(text: &str, below_min_logprob: bool, peak: i16) -> (b: bool)
    ensures
        b == is_hallucination(text@, below_min_logprob, peak),
{
    let t = trim(text);
    let stripped = trim_class(t.as_str(), TrimClass::SpaceAndPunct);
    let norm = to_lowercase(stripped.as_str());
    if norm.as_str().unicode_len() == 0 {
        return true;
    }
    if peak < LOUD_PEAK && below_min_logprob {
        return true;
    }
    let listed = in_list(
        norm.as_str(),
        &[
            "thank you",
            "thanks for watching",
            "thank you for watching",
            "please subscribe",
            "you",
            "bye",
            "感谢观看",
            "请不吝点赞订阅转发打赏支持明镜与点点栏目",
            "字幕由amara.org社区提供",
        ],
    );
    listed
}

/// The text a transcription yields: the reply's text trimmed, or nothing when it
/// looks like noise.
pub fn filter_transcript(text: &str, below_min_logprob: bool, peak: i16) -> (r: String)
    ensures
        is_hallucination(trimmed(text@), below_min_logprob, peak) ==> r@ == Seq::<char>::empty(),
        !is_hallucination(trimmed(text@), below_min_logprob, peak) ==> r@ == trimmed(text@),
{
    let t = trim(text);
    if looks_like_hallucination(t.as_str(), below_min_logprob, peak) {
        String::new()
    } else {
        t
    }
}

/// Blank and punctuation-only transcripts are dropped at any loudness, and a loud
/// recording is never dropped for low model confidence alone.
pub proof fn lemma_noise_filter(text: Seq<char>, below: bool, peak: i16)
    ensures
        normal_form(text).len() == 0 ==> is_hallucination(text, below, peak),
        peak >= LOUD_PEAK ==> (is_hallucination(text, below, peak) == is_hallucination(
            text,
            false,
            peak,
        )),
{
}

/// The known silence hallucinations are dropped whatever the loudness and the
/// model's confidence: a transcript whose normal form (trimmed, stripped of
/// surrounding punctuation, lower-cased) is one of them is noise, and so is its
/// trimmed form, which is what `filter_transcript` tests, so it yields nothing.
pub proof fn lemma_silence_phrases_dropped(text: Seq<char>, below: bool, peak: i16)
    ensures
        ({
            let n = normal_form(text);
            ||| n == "thank you"@
            ||| n == "thanks for watching"@
            ||| n == "thank you for watching"@
            ||| n == "please subscribe"@
            ||| n == "you"@
            ||| n == "bye"@
            ||| n == "感谢观看"@
            ||| n == "请不吝点赞订阅转发打赏支持明镜与点点栏目"@
            ||| n == "字幕由amara.org社区提供"@
        }) ==> is_hallucination(text, below, peak) && is_hallucination(trimmed(text), below, peak),
{
    lemma_trim_idempotent(text, TrimClass::Space);
}

} // verus!

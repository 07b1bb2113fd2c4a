//! The dictation session: wait for the key, record, transcribe, polish, paste.
//!
//! The decisions of a session are the state machine [`Session::step`]: given the
//! current phase, the engine status and what just happened, it yields the next
//! phase, the updated status and the [`Step`] for the caller to carry out (await a
//! key, drive the microphone, call a service, paste). The caller owns the audio,
//! the network and the clipboard, and feeds each outcome back as an [`Input`].

use vstd::prelude::*;
use vstd::string::*;
use crate::hotkey::HotkeyEvent;
use crate::macos::app::{active_style_of, AppConfig, EngineState, Status, HISTORY_LEN};
use crate::macos::llm::{self, compose_system_prompt, system_prompt_for};
use crate::net::opt_view;
use crate::macos::stt;
use crate::text::{
    ascii_lower_seq, blank, eq_ignore_ascii_case, is_blank, join2, non_blank, trim, trimmed,
};

verus! {

/// Recordings held shorter than this (in nanoseconds) are discarded.
pub const MIN_HOLD_NANOS: u64 = 300_000_000;

/// Shown when no service key is configured anywhere.
pub const NO_KEY_MESSAGE: &'static str = "未设置 API key（env GROQ_API_KEY 或设置窗口里填）";

/// Precedes the error of a failed paste.
pub const PASTE_FAILED_PREFIX: &'static str = "粘贴失败: ";

/// Shown when the key listener has died (almost always a missing permission).
pub const LISTENER_GONE_MESSAGE: &'static str = "全局热键监听异常退出，请退出并重新打开 SaySo。若粘贴不生效，到『系统设置 → 隐私与安全性 → 辅助功能』勾选 SaySo。";

/// The key to use: the environment's `GROQ_API_KEY` unless blank, else the
/// configured key trimmed, else none.
pub open spec fn key_choice(env_key: Option<Seq<char>>, cfg_key: Seq<char>) -> Option<Seq<char>> {
    match env_key {
        Some(k) if !is_blank(k) => Some(k),
        _ => if is_blank(cfg_key) {
            None
        } else {
            Some(trimmed(cfg_key))
        },
    }
}

/// Picks the service key (see [`key_choice`]); `env_key` is the environment
/// variable's value, when set.
pub fn resolve_key(env_key: Option<String>, cfg_key: &str) -> (r: Option<String>)
    ensures
        opt_view(r) == key_choice(opt_view(env_key), cfg_key@),
{
    if let Some(k) = env_key {
        if !blank(k.as_str()) {
            return Some(k);
        }
    }
    let k = trim(cfg_key);
    if k.as_str().unicode_len() == 0 {
        None
    } else {
        Some(k)
    }
}

/// Tap-to-toggle mode: the trigger mode, trimmed, is `toggle` or `tap` in any ASCII case.
pub open spec fn is_toggle(mode: Seq<char>) -> bool {
    ||| ascii_lower_seq(trimmed(mode)) == ascii_lower_seq("toggle"@)
    ||| ascii_lower_seq(trimmed(mode)) == ascii_lower_seq("tap"@)
}

pub fn is_toggle_mode(mode: &str) -> (b: bool)
    ensures
        b == is_toggle(mode@),
{
    let m = trim(mode);
    eq_ignore_ascii_case(m.as_str(), "toggle") || eq_ignore_ascii_case(m.as_str(), "tap")
}

/// The key edge that ends a recording: a second press in toggle mode, the
/// release otherwise.
pub open spec fn stop_event_for(mode: Seq<char>) -> HotkeyEvent {
    if is_toggle(mode) {
        HotkeyEvent::Press
    } else {
        HotkeyEvent::Release
    }
}

/// Where a session stands.
pub enum Session {
    /// Waiting for the key to start.
    AwaitStart,
    /// Recording, waiting for the stop edge; `cfg` is the settings snapshot.
    AwaitStop { cfg: AppConfig },
    /// The recording is being closed and measured.
    AwaitCapture { cfg: AppConfig },
    /// The transcription request is running.
    AwaitTranscript { cfg: AppConfig, key: String },
    /// The polishing request is running; `raw` is the transcript.
    AwaitPolish { raw: String },
    /// The paste is running.
    AwaitPaste { text: String },
    /// The session is over.
    Done,
}

/// What the caller reports back.
pub enum Input {
    /// The start edge arrived; the settings as they are now.
    Pressed(AppConfig),
    /// The stop edge arrived.
    Stopped,
    /// The recording ended: its peak, how long the key was held, and the
    /// `GROQ_API_KEY` environment value if set.
    Captured { peak: i16, held_nanos: u64, env_key: Option<String> },
    /// The (noise-filtered) transcript.
    Transcribed(String),
    /// The polished text, or `None` when polishing failed.
    Polished(Option<String>),
    /// `None` when the paste worked, else its error message.
    Pasted(Option<String>),
}

/// What the caller does next.
pub enum Step {
    /// Wait for this key edge, then report `Pressed` with a settings snapshot.
    WaitFor(HotkeyEvent),
    /// Start recording, wait for `stop`, then report `Stopped`.
    Record { stop: HotkeyEvent },
    /// Stop recording and report `Captured`.
    EndRecording,
    /// Frame the recording as WAV and transcribe it; report `Transcribed`.
    Transcribe { cfg: stt::Config, peak: i16 },
    /// Polish `text`; report `Polished`.
    Polish { cfg: llm::Config, text: String },
    /// Paste the text; report `Pasted`.
    Paste(String),
    /// The session is over.
    Finish,
}

/// The transcription settings a session derives from the snapshot and the key.
pub open spec fn stt_config_for(c: stt::Config, cfg: AppConfig, key: Seq<char>) -> bool {
    &&& c.base_url@ == cfg.stt_base_url@
    &&& c.model@ == cfg.stt_model@
    &&& c.api_key@ == key
    &&& opt_view(c.proxy) == (if is_blank(cfg.proxy@) {
        None
    } else {
        Some(cfg.proxy@)
    })
    &&& opt_view(c.prompt) == (if is_blank(cfg.stt_prompt@) {
        None
    } else {
        Some(cfg.stt_prompt@)
    })
    &&& c.min_logprob_bits == cfg.stt_min_logprob_bits
}

/// The polishing settings a session derives from the snapshot and the key.
pub open spec fn llm_config_for(c: llm::Config, cfg: AppConfig, key: Seq<char>) -> bool {
    &&& c.base_url@ == cfg.llm_base_url@
    &&& c.model@ == cfg.llm_model@
    &&& c.api_key@ == key
    &&& opt_view(c.proxy) == (if is_blank(cfg.proxy@) {
        None
    } else {
        Some(cfg.proxy@)
    })
    &&& c.system_prompt@ == system_prompt_for(active_style_of(cfg))
    &&& c.enabled == cfg.llm_enabled
}

/// All status fields but `state` and `last_peak` are unchanged.
pub open spec fn keeps_texts(a: Status, b: Status) -> bool {
    &&& b.last_raw == a.last_raw
    &&& b.last_final == a.last_final
    &&& b.last_error == a.last_error
    &&& b.history == a.history
    &&& b.permission_problem == a.permission_problem
}

/// The status after a finished paste of `text`: it is the latest result, first in
/// the history, which keeps at most [`HISTORY_LEN`] entries.
pub open spec fn finished_with(a: Status, b: Status, text: Seq<char>) -> bool {
    let h = seq![text] + a.history_view();
    &&& b.last_final@ == text
    &&& b.history_view() == h.take(
        if h.len() < HISTORY_LEN {
            h.len() as int
        } else {
            HISTORY_LEN as int
        },
    )
    &&& b.state == EngineState::Idle
    &&& b.last_raw == a.last_raw
    &&& b.last_peak == a.last_peak
    &&& b.permission_problem == a.permission_problem
}

/// The state machine: from phase `s` and status `st`, input `inp` leads to phase
/// `s2`, status `st2` and step `r`. An input the phase does not wait for ends the
/// session and leaves the status alone.
pub open spec fn step_rel(s: Session, st: Status, inp: Input, s2: Session, st2: Status, r: Step) -> bool {
    match (s, inp) {
        (Session::AwaitStart, Input::Pressed(cfg)) => {
            &&& s2 == Session::AwaitStop { cfg }
            &&& r == Step::Record { stop: stop_event_for(cfg.trigger_mode@) }
            &&& st2.state == EngineState::Recording
            &&& st2.last_peak == st.last_peak
            &&& keeps_texts(st, st2)
        },
        (Session::AwaitStop { cfg }, Input::Stopped) => {
            &&& s2 == Session::AwaitCapture { cfg }
            &&& r == Step::EndRecording
            &&& st2 == st
        },
        (Session::AwaitCapture { cfg }, Input::Captured { peak, held_nanos, env_key }) => {
            &&& st2.last_peak == peak
            &&& if peak < cfg.silence_threshold || held_nanos < MIN_HOLD_NANOS {
                &&& s2 == Session::Done
                &&& r == Step::Finish
                &&& st2.state == EngineState::Idle
                &&& keeps_texts(st, st2)
            } else {
                match key_choice(opt_view(env_key), cfg.api_key@) {
                    None => {
                        &&& s2 == Session::Done
                        &&& r == Step::Finish
                        &&& st2.state == EngineState::Error
                        &&& st2.last_error@ == NO_KEY_MESSAGE@
                        &&& st2.last_raw == st.last_raw
                        &&& st2.last_final == st.last_final
                        &&& st2.history == st.history
                        &&& st2.permission_problem == st.permission_problem
                    },
                    Some(k) => {
                        &&& s2 matches Session::AwaitTranscript { cfg: c2, key } && c2 == cfg && key@
                            == k
                        &&& r matches Step::Transcribe { cfg: sc, peak: p } && p == peak
                            && stt_config_for(sc, cfg, k)
                        &&& st2.state == EngineState::Transcribing
                        &&& keeps_texts(st, st2)
                    },
                }
            }
        },
        (Session::AwaitTranscript { cfg, key }, Input::Transcribed(raw)) => {
            let t = trimmed(raw@);
            &&& st2.last_peak == st.last_peak
            &&& if t.len() == 0 {
                &&& s2 == Session::Done
                &&& r == Step::Finish
                &&& st2.state == EngineState::Idle
                &&& keeps_texts(st, st2)
            } else {
                &&& s2 matches Session::AwaitPolish { raw: r2 } && r2@ == t
                &&& r matches Step::Polish { cfg: lc, text } && text@ == t && llm_config_for(
                    lc,
                    cfg,
                    key@,
                )
                &&& st2.state == EngineState::Polishing
                &&& st2.last_raw@ == t
                &&& st2.last_final == st.last_final
                &&& st2.last_error == st.last_error
                &&& st2.history == st.history
                &&& st2.permission_problem == st.permission_problem
            }
        },
        (Session::AwaitPolish { raw }, Input::Polished(res)) => {
            let f = match res {
                Some(p) => p@,
                None => raw@,
            };
            &&& s2 matches Session::AwaitPaste { text } && text@ == f
            &&& r matches Step::Paste(x) && x@ == f
            &&& st2.state == EngineState::Pasting
            &&& st2.last_peak == st.last_peak
            &&& keeps_texts(st, st2)
        },
        (Session::AwaitPaste { text }, Input::Pasted(err)) => {
            &&& s2 == Session::Done
            &&& r == Step::Finish
            &&& finished_with(st, st2, text@)
            &&& st2.last_error@ == match err {
                Some(e) => PASTE_FAILED_PREFIX@ + e@,
                None => st.last_error@,
            }
        },
        _ => {
            &&& s2 == Session::Done
            &&& r == Step::Finish
            &&& st2 == st
        },
    }
}

/// The phase-appropriate input kinds.
pub open spec fn expects(s: Session, inp: Input) -> bool {
    match (s, inp) {
        (Session::AwaitStart, Input::Pressed(_)) => true,
        (Session::AwaitStop { .. }, Input::Stopped) => true,
        (Session::AwaitCapture { .. }, Input::Captured { .. }) => true,
        (Session::AwaitTranscript { .. }, Input::Transcribed(_)) => true,
        (Session::AwaitPolish { .. }, Input::Polished(_)) => true,
        (Session::AwaitPaste { .. }, Input::Pasted(_)) => true,
        _ => false,
    }
}

/// Records a finished paste of `text` (see [`finished_with`]).
fn record_final(st: &mut Status, text: &String)
    ensures
        finished_with(*old(st), *final(st), text@),
        final(st).last_error == old(st).last_error,
{
    st.last_final = text.clone();
    let ghost old_h = st.history_view();
    st.history.insert(0, text.clone());
    proof {
        assert(st.history_view() =~= seq![text@] + old_h);
    }
    st.history.truncate(HISTORY_LEN);
    proof {
        let h = seq![text@] + old_h;
        assert(st.history_view() =~= h.take(
            if h.len() < HISTORY_LEN {
                h.len() as int
            } else {
                HISTORY_LEN as int
            },
        ));
    }
    st.state = EngineState::Idle;
}

impl Session {
    /// A session waiting for the key.
    pub fn new() -> (r: (Session, Step))
        ensures
            r.0 == Session::AwaitStart,
            r.1 == Step::WaitFor(HotkeyEvent::Press),
    {
        (Session::AwaitStart, Step::WaitFor(HotkeyEvent::Press))
    }

    /// Advances the session by one input (see [`step_rel`]).
    pub fn step(self, st: &mut Status, input: Input) -> (r: (Session, Step))
        ensures
            step_rel(self, *old(st), input, r.0, *final(st), r.1),
    {
        match (self, input) {
            (Session::AwaitStart, Input::Pressed(cfg)) => {
                let toggle = is_toggle_mode(cfg.trigger_mode.as_str());
                let stop = if toggle {
                    HotkeyEvent::Press
                } else {
                    HotkeyEvent::Release
                };
                st.state = EngineState::Recording;
                (Session::AwaitStop { cfg }, Step::Record { stop })
            },
            (Session::AwaitStop { cfg }, Input::Stopped) => {
                (Session::AwaitCapture { cfg }, Step::EndRecording)
            },
            (Session::AwaitCapture { cfg }, Input::Captured { peak, held_nanos, env_key }) => {
                st.last_peak = peak;
                if peak < cfg.silence_threshold || held_nanos < MIN_HOLD_NANOS {
                    st.state = EngineState::Idle;
                    return (Session::Done, Step::Finish);
                }
                match resolve_key(env_key, cfg.api_key.as_str()) {
                    None => {
                        st.state = EngineState::Error;
                        st.last_error = String::from_str(NO_KEY_MESSAGE);
                        (Session::Done, Step::Finish)
                    },
                    Some(key) => {
                        st.state = EngineState::Transcribing;
                        let sc = stt::Config {
                            base_url: cfg.stt_base_url.clone(),
                            model: cfg.stt_model.clone(),
                            api_key: key.clone(),
                            proxy: non_blank(cfg.proxy.as_str()),
                            prompt: non_blank(cfg.stt_prompt.as_str()),
                            min_logprob_bits: cfg.stt_min_logprob_bits,
                        };
                        (Session::AwaitTranscript { cfg, key }, Step::Transcribe { cfg: sc, peak })
                    },
                }
            },
            (Session::AwaitTranscript { cfg, key }, Input::Transcribed(raw)) => {
                let t = trim(raw.as_str());
                if t.as_str().unicode_len() == 0 {
                    st.state = EngineState::Idle;
                    return (Session::Done, Step::Finish);
                }
                st.last_raw = t.clone();
                st.state = EngineState::Polishing;
                let style = cfg.active_style();
                let lc = llm::Config {
                    base_url: cfg.llm_base_url.clone(),
                    model: cfg.llm_model.clone(),
                    api_key: key,
                    proxy: non_blank(cfg.proxy.as_str()),
                    system_prompt: compose_system_prompt(style.as_str()),
                    enabled: cfg.llm_enabled,
                };
                (Session::AwaitPolish { raw: t.clone() }, Step::Polish { cfg: lc, text: t })
            },
            (Session::AwaitPolish { raw }, Input::Polished(res)) => {
                let f = match res {
                    Some(p) => p,
                    None => raw,
                };
                st.state = EngineState::Pasting;
                (Session::AwaitPaste { text: f.clone() }, Step::Paste(f))
            },
            (Session::AwaitPaste { text }, Input::Pasted(err)) => {
                if let Some(e) = err {
                    st.last_error = join2(PASTE_FAILED_PREFIX, e.as_str());
                }
                record_final(st, &text);
                (Session::Done, Step::Finish)
            },
            (_, _) => (Session::Done, Step::Finish),
        }
    }
}

impl Status {
    /// Marks the engine as failed with a message.
    pub fn fail(&mut self, message: String)
        ensures
            final(self).state == EngineState::Error,
            final(self).last_error@ == message@,
            final(self).last_raw == old(self).last_raw,
            final(self).last_final == old(self).last_final,
            final(self).history == old(self).history,
            final(self).last_peak == old(self).last_peak,
            final(self).permission_problem == old(self).permission_problem,
    {
        self.state = EngineState::Error;
        self.last_error = message;
    }

    /// Reacts to a failed session. When the key listener is gone (`listener_gone`)
    /// the permission hint is raised and the engine stops (`false`); otherwise the
    /// error is shown and the engine goes on (`true`).
    pub fn session_failed(&mut self, message: String, listener_gone: bool) -> (keep_going: bool)
        ensures
            keep_going == !listener_gone,
            final(self).state == EngineState::Error,
            listener_gone ==> final(self).last_error@ == LISTENER_GONE_MESSAGE@
                && final(self).permission_problem,
            !listener_gone ==> final(self).last_error@ == message@
                && final(self).permission_problem == old(self).permission_problem,
            final(self).last_raw == old(self).last_raw,
            final(self).last_final == old(self).last_final,
            final(self).history == old(self).history,
            final(self).last_peak == old(self).last_peak,
    {
        if listener_gone {
            self.state = EngineState::Error;
            self.permission_problem = true;
            self.last_error = String::from_str(LISTENER_GONE_MESSAGE);
            false
        } else {
            self.fail(message);
            true
        }
    }

    /// Sets what the engine is doing.
    pub fn set_state(&mut self, state: EngineState)
        ensures
            final(self).state == state,
            final(self).last_peak == old(self).last_peak,
            keeps_texts(*old(self), *final(self)),
    {
        self.state = state;
    }
}

/// How far a session has come: each phase strictly after the previous one.
pub open spec fn rank(s: Session) -> nat {
    match s {
        Session::AwaitStart => 0,
        Session::AwaitStop { .. } => 1,
        Session::AwaitCapture { .. } => 2,
        Session::AwaitTranscript { .. } => 3,
        Session::AwaitPolish { .. } => 4,
        Session::AwaitPaste { .. } => 5,
        Session::Done => 6,
    }
}

/// Every input moves a session strictly forward, so a session is over after at
/// most six inputs; and when it is over the engine is idle or showing an error
/// (or, after an input it did not wait for, as it was).
pub proof fn lemma_session_progress(s: Session, st: Status, inp: Input, s2: Session, st2: Status, r: Step)
    requires
        step_rel(s, st, inp, s2, st2, r),
        s != Session::Done,
    ensures
        rank(s2) > rank(s),
        (r == Step::Finish) <==> (s2 == Session::Done),
        expects(s, inp) && r == Step::Finish ==> (st2.state == EngineState::Idle || st2.state
            == EngineState::Error),
{
}

/// The history never grows past [`HISTORY_LEN`] entries, and after a paste its first
/// entry is the text just pasted.
pub proof fn lemma_history_bounded(s: Session, st: Status, inp: Input, s2: Session, st2: Status, r: Step)
    requires
        step_rel(s, st, inp, s2, st2, r),
        st.history@.len() <= HISTORY_LEN,
    ensures
        st2.history@.len() <= HISTORY_LEN,
        (s matches Session::AwaitPaste { text } && inp is Pasted) ==> st2.history_view()[0]
            == st2.last_final@,
{
    assert(st.history_view().len() == st.history@.len());
    assert(st2.history_view().len() == st2.history@.len());
}

/// A blank transcript ends the session: nothing is polished or pasted.
pub proof fn lemma_blank_transcript_not_pasted(
    cfg: AppConfig,
    key: String,
    st: Status,
    raw: String,
    s2: Session,
    st2: Status,
    r: Step,
)
    requires
        step_rel(Session::AwaitTranscript { cfg, key }, st, Input::Transcribed(raw), s2, st2, r),
        is_blank(raw@),
    ensures
        r == Step::Finish,
        st2.state == EngineState::Idle,
{
}

/// A recording quieter than the configured threshold, or held too briefly, is
/// never sent for transcription.
pub proof fn lemma_quiet_or_short_not_sent(
    cfg: AppConfig,
    st: Status,
    peak: i16,
    held_nanos: u64,
    env_key: Option<String>,
    s2: Session,
    st2: Status,
    r: Step,
)
    requires
        step_rel(
            Session::AwaitCapture { cfg },
            st,
            Input::Captured { peak, held_nanos, env_key },
            s2,
            st2,
            r,
        ),
        peak < cfg.silence_threshold || held_nanos < MIN_HOLD_NANOS,
    ensures
        r == Step::Finish,
        st2.state == EngineState::Idle,
        st2.last_peak == peak,
{
}

/// Polishing follows the settings snapshot of the session: when a transcript leads
/// to the polishing step, its request is switched on exactly when polishing is on in
/// the settings (so with polishing off the transcript comes back unchanged and no
/// request is made), it goes to the configured model and base URL with the
/// session's key, and its system prompt is the one composed from the selected
/// style.
pub proof fn lemma_polish_follows_settings(
    s: Session,
    st: Status,
    inp: Input,
    s2: Session,
    st2: Status,
    r: Step,
)
    requires
        step_rel(s, st, inp, s2, st2, r),
    ensures
        s matches Session::AwaitTranscript { cfg, key } ==> (r matches Step::Polish { cfg: c, text }
            ==> {
            &&& c.enabled == cfg.llm_enabled
            &&& c.model@ == cfg.llm_model@
            &&& c.base_url@ == cfg.llm_base_url@
            &&& c.api_key@ == key@
            &&& c.system_prompt@ == system_prompt_for(active_style_of(cfg))
            &&& inp matches Input::Transcribed(raw) && text@ == trimmed(raw@)
        }),
        r matches Step::Polish { .. } ==> s matches Session::AwaitTranscript { .. },
{
}

} // verus!

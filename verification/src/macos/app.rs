//! Central state: the settings (persisted by the application) and the engine's
//! status shown in the window and tray.

use vstd::prelude::*;
use vstd::string::*;
use crate::macos::{llm, stt};

verus! {

/// The default push-to-talk key name: right Option on macOS, right Alt elsewhere
/// (both land on the same physical key).
pub fn default_hotkey(on_macos: bool) -> (r: String)
    ensures
        on_macos ==> r@ == "RightOption"@,
        !on_macos ==> r@ == "RightAlt"@,
{
    if on_macos {
        String::from_str("RightOption")
    } else {
        String::from_str("RightAlt")
    }
}

/// An output style: a name and a one-line style description fed into the fixed
/// prompt template. An empty style means plain clean-up.
pub struct Preset {
    pub name: String,
    pub style: String,
}

impl Clone for Preset {
    fn clone(&self) -> (r: Self)
        ensures
            r.name@ == self.name@,
            r.style@ == self.style@,
    {
        Preset { name: self.name.clone(), style: self.style.clone() }
    }
}

pub const CLEANUP_NAME: &'static str = "清理润色";

/// The name given to a style the user adds.
pub const NEW_PRESET_NAME: &'static str = "新风格";

/// The one built-in style: plain clean-up (an empty style). Further styles are the
/// ones the user creates in the settings window.
pub fn default_presets() -> (r: Vec<Preset>)
    ensures
        r@.len() == 1,
        r@[0].name@ == CLEANUP_NAME@,
        r@[0].style@ == Seq::<char>::empty(),
{
    let mut v: Vec<Preset> = Vec::new();
    v.push(Preset { name: String::from_str(CLEANUP_NAME), style: String::new() });
    v
}

/// The settings. The noise threshold `stt_min_logprob` is held as the bit pattern
/// of its `f64` value.
pub struct AppConfig {
    /// The service key; the `GROQ_API_KEY` environment variable takes precedence.
    pub api_key: String,
    /// HTTP proxy URL; blank means direct (or the `HTTPS_PROXY` variable).
    pub proxy: String,
    pub hotkey: String,
    /// `"hold"` (talk while held) or `"toggle"` (tap to start, tap to stop).
    pub trigger_mode: String,
    pub silence_threshold: i16,
    pub stt_base_url: String,
    pub stt_model: String,
    /// Empty means no prompt is sent.
    pub stt_prompt: String,
    pub stt_min_logprob_bits: u64,
    pub llm_enabled: bool,
    pub llm_base_url: String,
    pub llm_model: String,
    pub presets: Vec<Preset>,
    pub active_preset: usize,
}

/// The default settings for the platform.
pub open spec fn is_default_config(c: AppConfig, on_macos: bool) -> bool {
    &&& c.api_key@ == Seq::<char>::empty()
    &&& c.proxy@ == Seq::<char>::empty()
    &&& (on_macos ==> c.hotkey@ == "RightOption"@)
    &&& (!on_macos ==> c.hotkey@ == "RightAlt"@)
    &&& c.trigger_mode@ == "hold"@
    &&& c.silence_threshold == 500
    &&& c.stt_base_url@ == stt::DEFAULT_BASE_URL@
    &&& c.stt_model@ == stt::DEFAULT_MODEL@
    &&& c.stt_prompt@ == stt::DEFAULT_PROMPT@
    &&& c.stt_min_logprob_bits == stt::DEFAULT_MIN_LOGPROB_BITS
    &&& c.llm_enabled
    &&& c.llm_base_url@ == llm::DEFAULT_BASE_URL@
    &&& c.llm_model@ == llm::DEFAULT_MODEL@
    &&& c.presets@.len() == 1
    &&& c.presets@[0].name@ == CLEANUP_NAME@
    &&& c.presets@[0].style@ == Seq::<char>::empty()
    &&& c.active_preset == 0
}

/// The style of the selected preset; empty (plain clean-up) when the selection is
/// out of range.
pub open spec fn active_style_of(c: AppConfig) -> Seq<char> {
    if c.active_preset < c.presets@.len() {
        c.presets@[c.active_preset as int].style@
    } else {
        Seq::empty()
    }
}

/// Two settings values that agree field by field.
pub open spec fn same_config(a: AppConfig, b: AppConfig) -> bool {
    &&& a.api_key@ == b.api_key@
    &&& a.proxy@ == b.proxy@
    &&& a.hotkey@ == b.hotkey@
    &&& a.trigger_mode@ == b.trigger_mode@
    &&& a.silence_threshold == b.silence_threshold
    &&& a.stt_base_url@ == b.stt_base_url@
    &&& a.stt_model@ == b.stt_model@
    &&& a.stt_prompt@ == b.stt_prompt@
    &&& a.stt_min_logprob_bits == b.stt_min_logprob_bits
    &&& a.llm_enabled == b.llm_enabled
    &&& a.llm_base_url@ == b.llm_base_url@
    &&& a.llm_model@ == b.llm_model@
    &&& a.presets@.len() == b.presets@.len()
    &&& forall|i: int|
        0 <= i < a.presets@.len() ==> (#[trigger] a.presets@[i]).name@ == b.presets@[i].name@
            && a.presets@[i].style@ == b.presets@[i].style@
    &&& a.active_preset == b.active_preset
}

fn clone_presets(v: &Vec<Preset>) -> (r: Vec<Preset>)
    ensures
        r@.len() == v@.len(),
        forall|i: int|
            0 <= i < v@.len() ==> (#[trigger] r@[i]).name@ == v@[i].name@ && r@[i].style@
                == v@[i].style@,
{
    let mut r: Vec<Preset> = Vec::new();
    let mut i: usize = 0;
    while i < v.len()
        invariant
            i <= v@.len(),
            r@.len() == i,
            forall|j: int|
                0 <= j < i ==> (#[trigger] r@[j]).name@ == v@[j].name@ && r@[j].style@
                    == v@[j].style@,
        decreases v@.len() - i,
    {
        r.push(v[i].clone());
        i = i + 1;
    }
    r
}

impl Clone for AppConfig {
    fn clone(&self) -> (r: Self)
        ensures
            same_config(r, *self),
    {
        AppConfig {
            api_key: self.api_key.clone(),
            proxy: self.proxy.clone(),
            hotkey: self.hotkey.clone(),
            trigger_mode: self.trigger_mode.clone(),
            silence_threshold: self.silence_threshold,
            stt_base_url: self.stt_base_url.clone(),
            stt_model: self.stt_model.clone(),
            stt_prompt: self.stt_prompt.clone(),
            stt_min_logprob_bits: self.stt_min_logprob_bits,
            llm_enabled: self.llm_enabled,
            llm_base_url: self.llm_base_url.clone(),
            llm_model: self.llm_model.clone(),
            presets: clone_presets(&self.presets),
            active_preset: self.active_preset,
        }
    }
}

impl AppConfig {
    /// The defaults (the platform decides the default key name).
    pub fn defaults(on_macos: bool) -> (r: AppConfig)
        ensures
            is_default_config(r, on_macos),
    {
        AppConfig {
            api_key: String::new(),
            proxy: String::new(),
            hotkey: default_hotkey(on_macos),
            trigger_mode: String::from_str("hold"),
            silence_threshold: 500,
            stt_base_url: String::from_str(stt::DEFAULT_BASE_URL),
            stt_model: String::from_str(stt::DEFAULT_MODEL),
            stt_prompt: String::from_str(stt::DEFAULT_PROMPT),
            stt_min_logprob_bits: stt::DEFAULT_MIN_LOGPROB_BITS,
            llm_enabled: true,
            llm_base_url: String::from_str(llm::DEFAULT_BASE_URL),
            llm_model: String::from_str(llm::DEFAULT_MODEL),
            presets: default_presets(),
            active_preset: 0,
        }
    }

    /// The style line of the selected preset (see [`active_style_of`]).
    pub fn active_style(&self) -> (r: String)
        ensures
            r@ == active_style_of(*self),
    {
        if self.active_preset < self.presets.len() {
            self.presets[self.active_preset].style.clone()
        } else {
            String::new()
        }
    }

    /// The index shown as selected: the selection, clamped to the last preset.
    pub fn shown_preset(&self) -> (r: usize)
        ensures
            self.presets@.len() == 0 ==> r == 0,
            self.presets@.len() > 0 ==> r == if self.active_preset < self.presets@.len() {
                self.active_preset as int
            } else {
                self.presets@.len() - 1
            },
    {
        let last = if self.presets.len() == 0 {
            0
        } else {
            self.presets.len() - 1
        };
        if self.active_preset < last {
            self.active_preset
        } else {
            last
        }
    }

    /// Adds an empty style named [`NEW_PRESET_NAME`] at the end.
    pub fn add_preset(&mut self)
        ensures
            final(self).presets@.len() == old(self).presets@.len() + 1,
            forall|i: int|
                0 <= i < old(self).presets@.len() ==> #[trigger] final(self).presets@[i] == old(
                    self,
                ).presets@[i],
            final(self).presets@.last().name@ == NEW_PRESET_NAME@,
            final(self).presets@.last().style@ == Seq::<char>::empty(),
            final(self).active_preset == old(self).active_preset,
    {
        self.presets.push(Preset { name: String::from_str(NEW_PRESET_NAME), style: String::new() });
    }

    /// Deletes preset `i`; a selection past the end moves to the new last preset.
    pub fn remove_preset(&mut self, i: usize)
        requires
            i < old(self).presets@.len(),
        ensures
            final(self).presets@ == old(self).presets@.remove(i as int),
            old(self).active_preset < final(self).presets@.len() ==> final(self).active_preset
                == old(self).active_preset,
            old(self).active_preset >= final(self).presets@.len() ==> final(self).active_preset
                == if final(self).presets@.len() == 0 {
                0
            } else {
                final(self).presets@.len() - 1
            },
    {
        self.presets.remove(i);
        if self.active_preset >= self.presets.len() {
            self.active_preset = if self.presets.len() == 0 {
                0
            } else {
                self.presets.len() - 1
            };
        }
    }
}

/// What the engine is doing.
#[derive(Clone, Copy, PartialEq, Eq, Debug, Structural)]
pub enum EngineState {
    Idle,
    Recording,
    Transcribing,
    Polishing,
    Pasting,
    Error,
}

impl EngineState {
    /// The state's name as shown to the user.
    pub fn label(self) -> (r: &'static str)
        ensures
            self == EngineState::Idle ==> r@ == "空闲"@,
            self == EngineState::Recording ==> r@ == "录音中"@,
            self == EngineState::Transcribing ==> r@ == "转写中"@,
            self == EngineState::Polishing ==> r@ == "润色中"@,
            self == EngineState::Pasting ==> r@ == "粘贴中"@,
            self == EngineState::Error ==> r@ == "出错"@,
    {
        match self {
            EngineState::Idle => "空闲",
            EngineState::Recording => "录音中",
            EngineState::Transcribing => "转写中",
            EngineState::Polishing => "润色中",
            EngineState::Pasting => "粘贴中",
            EngineState::Error => "出错",
        }
    }

    /// The RGB colour of the tray dot: grey idle, blue recording, orange while
    /// processing, green pasting, red on error.
    pub fn color(self) -> (r: [u8; 3])
        ensures
            self == EngineState::Idle ==> r@ == seq![142u8, 142u8, 147u8],
            self == EngineState::Recording ==> r@ == seq![0u8, 122u8, 255u8],
            (self == EngineState::Transcribing || self == EngineState::Polishing) ==> r@ == seq![
                255u8,
                159u8,
                10u8,
            ],
            self == EngineState::Pasting ==> r@ == seq![52u8, 199u8, 89u8],
            self == EngineState::Error ==> r@ == seq![255u8, 59u8, 48u8],
    {
        let r = match self {
            EngineState::Idle => [142u8, 142u8, 147u8],
            EngineState::Recording => [0u8, 122u8, 255u8],
            EngineState::Transcribing | EngineState::Polishing => [255u8, 159u8, 10u8],
            EngineState::Pasting => [52u8, 199u8, 89u8],
            EngineState::Error => [255u8, 59u8, 48u8],
        };
        assert(r@ =~= seq![r[0], r[1], r[2]]);
        r
    }
}

/// How many final texts the history keeps.
pub const HISTORY_LEN: usize = 20;

/// The engine's status, shared with the window.
pub struct Status {
    pub state: EngineState,
    pub last_raw: String,
    pub last_final: String,
    pub last_error: String,
    /// The latest final texts, newest first.
    pub history: Vec<String>,
    /// The peak of the last recording, as a level hint.
    pub last_peak: i16,
    /// Set when the key listener died, so the window shows the permission hint.
    pub permission_problem: bool,
}

impl Status {
    /// The history as character sequences.
    pub open spec fn history_view(&self) -> Seq<Seq<char>> {
        self.history@.map_values(|s: String| s@)
    }
}

impl Default for Status {
    fn default() -> (r: Status)
        ensures
            r.state == EngineState::Idle,
            r.last_raw@ == Seq::<char>::empty(),
            r.last_final@ == Seq::<char>::empty(),
            r.last_error@ == Seq::<char>::empty(),
            r.history@.len() == 0,
            r.last_peak == 0,
            !r.permission_problem,
    {
        Status {
            state: EngineState::Idle,
            last_raw: String::new(),
            last_final: String::new(),
            last_error: String::new(),
            history: Vec::new(),
            last_peak: 0,
            permission_problem: false,
        }
    }
}

} // verus!

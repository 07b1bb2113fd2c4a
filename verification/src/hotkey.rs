//! The push-to-talk key: parsing its configured name, and turning raw key
//! events into one press and one release per hold.

use vstd::prelude::*;
use crate::text::{
    all_ascii, ascii_lower_seq, is_lower_word, lemma_ascii_lower_idempotent,
    lemma_lower_word_fixed, lemma_trim_idempotent, lemma_trim_lower_commute, same_text,
    to_lowercase, trim, trimmed, unicode_lowercase, TrimClass,
};

verus! {

/// An edge of the push-to-talk key.
#[derive(Debug, Clone, Copy, PartialEq, Eq, Structural)]
pub enum HotkeyEvent {
    Press,
    Release,
}

/// The keys that can serve as push-to-talk key.
#[derive(Debug, Clone, Copy, PartialEq, Eq, Structural)]
pub enum TriggerKey {
    AltGr,
    ControlRight,
    ControlLeft,
    ShiftRight,
    ShiftLeft,
    Pause,
    ScrollLock,
}

/// A key name that names no supported key.
#[derive(Debug)]
pub enum HotkeyError {
    /// The name, trimmed and lower-cased.
    Unknown(String),
}

/// The key for an already trimmed, lower-cased name.
pub open spec fn key_named(n: Seq<char>) -> Option<TriggerKey> {
    if n == "rightalt"@ || n == "ralt"@ || n == "altgr"@ {
        Some(TriggerKey::AltGr)
    } else if n == "rightctrl"@ || n == "rctrl"@ || n == "controlright"@ {
        Some(TriggerKey::ControlRight)
    } else if n == "leftctrl"@ || n == "lctrl"@ || n == "controlleft"@ {
        Some(TriggerKey::ControlLeft)
    } else if n == "rightshift"@ || n == "rshift"@ || n == "shiftright"@ {
        Some(TriggerKey::ShiftRight)
    } else if n == "leftshift"@ || n == "lshift"@ || n == "shiftleft"@ {
        Some(TriggerKey::ShiftLeft)
    } else if n == "pause"@ || n == "pausebreak"@ {
        Some(TriggerKey::Pause)
    } else if n == "scrolllock"@ {
        Some(TriggerKey::ScrollLock)
    } else {
        None
    }
}

/// The normal form of a configured key name: trimmed, then lower-cased (what
/// `to_lowercase` yields: ASCII lower-casing on an all-ASCII name, the Unicode
/// lower-case mapping otherwise).
pub open spec fn key_name_form(s: Seq<char>) -> Seq<char> {
    let t = trimmed(s);
    if all_ascii(t) {
        ascii_lower_seq(t)
    } else {
        unicode_lowercase(t)
    }
}

/// Whether `a` is one of the names in the table of the given lower-cased name.
fn is_any(a: &str, names: &[&str]) -> (b: bool)
    ensures
        b == exists|i: int| 0 <= i < names@.len() && a@ == names@[i]@,
{
    let mut i: usize = 0;
    while i < names.len()
        invariant
            i <= names@.len(),
            forall|j: int| 0 <= j < i ==> a@ != #[trigger] names@[j]@,
        decreases names@.len() - i,
    {
        if same_text(a, names[i]) {
            return true;
        }
        i = i + 1;
    }
    false
}

/// Reads the configured push-to-talk key name (case- and surrounding-space-insensitive).
pub fn parse_hotkey(s: &str) -> (r: Result<TriggerKey, HotkeyError>)
    ensures
        key_named(key_name_form(s@)) matches Some(k) ==> r == Ok::<TriggerKey, HotkeyError>(k),
        key_named(key_name_form(s@)) is None ==> (r matches Err(HotkeyError::Unknown(n)) && n@
            == key_name_form(s@)),
        all_ascii(s@) ==> key_name_form(s@) == ascii_lower_seq(trimmed(s@)),
{
    let t = trim(s);
    let l = to_lowercase(t.as_str());
    let n = l.as_str();
    if is_any(n, &["rightalt", "ralt", "altgr"]) {
        Ok(TriggerKey::AltGr)
    } else if is_any(n, &["rightctrl", "rctrl", "controlright"]) {
        Ok(TriggerKey::ControlRight)
    } else if is_any(n, &["leftctrl", "lctrl", "controlleft"]) {
        Ok(TriggerKey::ControlLeft)
    } else if is_any(n, &["rightshift", "rshift", "shiftright"]) {
        Ok(TriggerKey::ShiftRight)
    } else if is_any(n, &["leftshift", "lshift", "shiftleft"]) {
        Ok(TriggerKey::ShiftLeft)
    } else if is_any(n, &["pause", "pausebreak"]) {
        Ok(TriggerKey::Pause)
    } else if is_any(n, &["scrolllock"]) {
        Ok(TriggerKey::ScrollLock)
    } else {
        Err(HotkeyError::Unknown(l))
    }
}

/// One step of the key-hold tracker: `(held, pressed)` to the new hold state and
/// the edge to report. Auto-repeated presses and stray releases report nothing.
pub open spec fn hold_step(held: bool, pressed: bool) -> (bool, Option<HotkeyEvent>) {
    if pressed && !held {
        (true, Some(HotkeyEvent::Press))
    } else if !pressed && held {
        (false, Some(HotkeyEvent::Release))
    } else {
        (held, None)
    }
}

pub open spec fn opt_seq(e: Option<HotkeyEvent>) -> Seq<HotkeyEvent> {
    match e {
        Some(x) => seq![x],
        None => Seq::empty(),
    }
}

/// The hold state and the edges reported after a sequence of presses (`true`) and
/// releases (`false`) of the target key.
pub open spec fn hold_run(held: bool, inputs: Seq<bool>) -> (bool, Seq<HotkeyEvent>)
    decreases inputs.len(),
{
    if inputs.len() == 0 {
        (held, Seq::empty())
    } else {
        let (h, out) = hold_run(held, inputs.drop_last());
        let (h2, e) = hold_step(h, inputs.last());
        (h2, out + opt_seq(e))
    }
}

/// Filters the target key's raw events, which repeat while the key is held,
/// down to the first press and the final release.
pub struct HoldTracker {
    pub held: bool,
}

impl HoldTracker {
    pub fn new() -> (r: HoldTracker)
        ensures
            !r.held,
    {
        HoldTracker { held: false }
    }

    /// Feeds one raw event of the target key (`pressed` for a key-down).
    pub fn on_target(&mut self, pressed: bool) -> (r: Option<HotkeyEvent>)
        ensures
            (final(self).held, r) == hold_step(old(self).held, pressed),
    {
        if pressed && !self.held {
            self.held = true;
            Some(HotkeyEvent::Press)
        } else if !pressed && self.held {
            self.held = false;
            Some(HotkeyEvent::Release)
        } else {
            None
        }
    }
}

/// Edges reported alternate: starting from a released key they read press,
/// release, press, ...; and the key is held exactly when the last edge was a press.
pub proof fn lemma_hold_alternates(held: bool, inputs: Seq<bool>)
    ensures
        ({
            let (h, out) = hold_run(held, inputs);
            &&& forall|i: int|
                0 <= i < out.len() ==> ((#[trigger] out[i] == HotkeyEvent::Press) == ((i % 2
                    == 0) != held))
            &&& h == (if out.len() % 2 == 0 {
                held
            } else {
                !held
            })
        }),
    decreases inputs.len(),
{
    if inputs.len() > 0 {
        lemma_hold_alternates(held, inputs.drop_last());
        let (h, out) = hold_run(held, inputs.drop_last());
        let (h2, e) = hold_step(h, inputs.last());
        let out2 = out + opt_seq(e);
        assert forall|i: int| 0 <= i < out2.len() implies ((#[trigger] out2[i]
            == HotkeyEvent::Press) == ((i % 2 == 0) != held)) by {
            if i < out.len() {
                assert(out2[i] == out[i]);
            }
        }
    }
}

/// A key name already in normal form keeps it: normalising an all-ASCII name twice
/// is normalising it once, and a name of lower-case letters `a`..`z` is its own
/// normal form.
pub proof fn lemma_key_name_form_stable(s: Seq<char>)
    ensures
        all_ascii(trimmed(s)) ==> key_name_form(key_name_form(s)) == key_name_form(s),
        is_lower_word(s) ==> key_name_form(s) == s,
{
    let t = trimmed(s);
    if all_ascii(t) {
        let n = ascii_lower_seq(t);
        lemma_ascii_lower_idempotent(t);
        lemma_trim_lower_commute(t, TrimClass::Space);
        lemma_trim_idempotent(s, TrimClass::Space);
        assert(trimmed(n) == n);
    }
    if is_lower_word(s) {
        lemma_lower_word_fixed(s);
    }
}

proof fn lemma_key_names_are_words(n: Seq<char>)
    requires
        key_named(n) is Some,
    ensures
        is_lower_word(n),
{
    reveal_strlit("rightalt");
    reveal_strlit("ralt");
    reveal_strlit("altgr");
    reveal_strlit("rightctrl");
    reveal_strlit("rctrl");
    reveal_strlit("controlright");
    reveal_strlit("leftctrl");
    reveal_strlit("lctrl");
    reveal_strlit("controlleft");
    reveal_strlit("rightshift");
    reveal_strlit("rshift");
    reveal_strlit("shiftright");
    reveal_strlit("leftshift");
    reveal_strlit("lshift");
    reveal_strlit("shiftleft");
    reveal_strlit("pause");
    reveal_strlit("pausebreak");
    reveal_strlit("scrolllock");
}

/// `n` begins with `w`.
pub open spec fn starts_with(n: Seq<char>, w: Seq<char>) -> bool {
    w.len() <= n.len() && forall|i: int| 0 <= i < w.len() ==> n[i] == #[trigger] w[i]
}

/// `n` ends with `w`.
pub open spec fn ends_with(n: Seq<char>, w: Seq<char>) -> bool {
    w.len() <= n.len() && forall|i: int| 0 <= i < w.len() ==> n[n.len() - w.len() + i] == #[trigger] w[i]
}

/// `w` stands at the start or at the end of `n`.
pub open spec fn has_word(n: Seq<char>, w: Seq<char>) -> bool {
    starts_with(n, w) || ends_with(n, w)
}

/// A name of a right-hand key: it begins with `r`, ends with `right`, or is the
/// "Alt Graph" key (ends with `gr`).
pub open spec fn names_right_side(n: Seq<char>) -> bool {
    starts_with(n, "r"@) || ends_with(n, "right"@) || ends_with(n, "gr"@)
}

/// A name of a left-hand key: it begins with `l` or ends with `left`.
pub open spec fn names_left_side(n: Seq<char>) -> bool {
    starts_with(n, "l"@) || ends_with(n, "left"@)
}

pub(crate) proof fn lemma_not_starts_with(n: Seq<char>, w: Seq<char>, i: int)
    requires
        0 <= i < w.len(),
        i < n.len(),
        n[i] != w[i],
    ensures
        !starts_with(n, w),
{
}

pub(crate) proof fn lemma_not_ends_with(n: Seq<char>, w: Seq<char>, i: int)
    requires
        0 <= i < w.len() <= n.len(),
        n[n.len() - w.len() + i] != w[i],
    ensures
        !ends_with(n, w),
{
}

/// What the words of a key name say of the key: its side and its kind.
pub open spec fn key_words_fit(n: Seq<char>, k: TriggerKey) -> bool {
    &&& names_right_side(n) ==> (k == TriggerKey::AltGr || k == TriggerKey::ControlRight || k
        == TriggerKey::ShiftRight)
    &&& names_left_side(n) ==> (k == TriggerKey::ControlLeft || k == TriggerKey::ShiftLeft)
    &&& (has_word(n, "ctrl"@) || has_word(n, "control"@)) ==> (k == TriggerKey::ControlRight || k
        == TriggerKey::ControlLeft)
    &&& has_word(n, "shift"@) ==> (k == TriggerKey::ShiftRight || k == TriggerKey::ShiftLeft)
    &&& (has_word(n, "alt"@) || has_word(n, "option"@)) ==> k == TriggerKey::AltGr
    &&& has_word(n, "pause"@) ==> k == TriggerKey::Pause
    &&& has_word(n, "scrolllock"@) ==> k == TriggerKey::ScrollLock
}

/// Every name `parse_hotkey` accepts (after trimming and lower-casing) gives the key
/// its words name: a right-hand name (`r…`, `…right`, `altgr`) never gives a
/// left-hand key and a left-hand name (`l…`, `…left`) never a right-hand one; a
/// `ctrl`/`control` name gives a Control key, a `shift` name a Shift key, an
/// `alt`/`option` name the AltGr key, `pause…` the Pause key and `scrolllock` the
/// Scroll Lock key. Side and kind together fix the key, so all aliases of one key
/// agree.
pub proof fn lemma_key_names_mean_their_key(n: Seq<char>)
    requires
        key_named(n) is Some,
    ensures
        key_words_fit(n, key_named(n)->0),
{
    assert(key_words_fit("rightalt"@, TriggerKey::AltGr)) by {
        reveal_strlit("rightalt"); reveal_strlit("r"); reveal_strlit("right"); reveal_strlit("gr"); reveal_strlit("l"); reveal_strlit("left"); reveal_strlit("ctrl"); reveal_strlit("control"); reveal_strlit("shift"); reveal_strlit("alt"); reveal_strlit("option"); reveal_strlit("pause"); reveal_strlit("scrolllock");
        lemma_not_ends_with("rightalt"@, "r"@, 0);
        lemma_not_ends_with("rightalt"@, "right"@, 0);
        lemma_not_starts_with("rightalt"@, "gr"@, 0);
        lemma_not_ends_with("rightalt"@, "gr"@, 0);
        lemma_not_starts_with("rightalt"@, "l"@, 0);
        lemma_not_ends_with("rightalt"@, "l"@, 0);
        lemma_not_starts_with("rightalt"@, "left"@, 0);
        lemma_not_ends_with("rightalt"@, "left"@, 0);
        lemma_not_starts_with("rightalt"@, "ctrl"@, 0);
        lemma_not_ends_with("rightalt"@, "ctrl"@, 0);
        lemma_not_starts_with("rightalt"@, "control"@, 0);
        lemma_not_ends_with("rightalt"@, "control"@, 0);
        lemma_not_starts_with("rightalt"@, "shift"@, 0);
        lemma_not_ends_with("rightalt"@, "shift"@, 0);
        lemma_not_starts_with("rightalt"@, "alt"@, 0);
        lemma_not_starts_with("rightalt"@, "option"@, 0);
        lemma_not_ends_with("rightalt"@, "option"@, 0);
        lemma_not_starts_with("rightalt"@, "pause"@, 0);
        lemma_not_ends_with("rightalt"@, "pause"@, 0);
    }
    assert(key_words_fit("ralt"@, TriggerKey::AltGr)) by {
        reveal_strlit("ralt"); reveal_strlit("r"); reveal_strlit("right"); reveal_strlit("gr"); reveal_strlit("l"); reveal_strlit("left"); reveal_strlit("ctrl"); reveal_strlit("control"); reveal_strlit("shift"); reveal_strlit("alt"); reveal_strlit("option"); reveal_strlit("pause"); reveal_strlit("scrolllock");
        lemma_not_ends_with("ralt"@, "r"@, 0);
        lemma_not_starts_with("ralt"@, "gr"@, 0);
        lemma_not_ends_with("ralt"@, "gr"@, 0);
        lemma_not_starts_with("ralt"@, "l"@, 0);
        lemma_not_ends_with("ralt"@, "l"@, 0);
        lemma_not_starts_with("ralt"@, "left"@, 0);
        lemma_not_ends_with("ralt"@, "left"@, 0);
        lemma_not_starts_with("ralt"@, "ctrl"@, 0);
        lemma_not_ends_with("ralt"@, "ctrl"@, 0);
        lemma_not_starts_with("ralt"@, "alt"@, 0);
    }
    assert(key_words_fit("altgr"@, TriggerKey::AltGr)) by {
        reveal_strlit("altgr"); reveal_strlit("r"); reveal_strlit("right"); reveal_strlit("gr"); reveal_strlit("l"); reveal_strlit("left"); reveal_strlit("ctrl"); reveal_strlit("control"); reveal_strlit("shift"); reveal_strlit("alt"); reveal_strlit("option"); reveal_strlit("pause"); reveal_strlit("scrolllock");
        lemma_not_starts_with("altgr"@, "r"@, 0);
        lemma_not_starts_with("altgr"@, "right"@, 0);
        lemma_not_ends_with("altgr"@, "right"@, 0);
        lemma_not_starts_with("altgr"@, "gr"@, 0);
        lemma_not_starts_with("altgr"@, "l"@, 0);
        lemma_not_ends_with("altgr"@, "l"@, 0);
        lemma_not_starts_with("altgr"@, "left"@, 0);
        lemma_not_ends_with("altgr"@, "left"@, 1);
        lemma_not_starts_with("altgr"@, "ctrl"@, 0);
        lemma_not_ends_with("altgr"@, "ctrl"@, 0);
        lemma_not_starts_with("altgr"@, "shift"@, 0);
        lemma_not_ends_with("altgr"@, "shift"@, 0);
        lemma_not_ends_with("altgr"@, "alt"@, 0);
        lemma_not_starts_with("altgr"@, "pause"@, 0);
        lemma_not_ends_with("altgr"@, "pause"@, 0);
    }
    assert(key_words_fit("rightctrl"@, TriggerKey::ControlRight)) by {
        reveal_strlit("rightctrl"); reveal_strlit("r"); reveal_strlit("right"); reveal_strlit("gr"); reveal_strlit("l"); reveal_strlit("left"); reveal_strlit("ctrl"); reveal_strlit("control"); reveal_strlit("shift"); reveal_strlit("alt"); reveal_strlit("option"); reveal_strlit("pause"); reveal_strlit("scrolllock");
        lemma_not_ends_with("rightctrl"@, "r"@, 0);
        lemma_not_ends_with("rightctrl"@, "right"@, 0);
        lemma_not_starts_with("rightctrl"@, "gr"@, 0);
        lemma_not_ends_with("rightctrl"@, "gr"@, 0);
        lemma_not_starts_with("rightctrl"@, "l"@, 0);
        lemma_not_starts_with("rightctrl"@, "left"@, 0);
        lemma_not_ends_with("rightctrl"@, "left"@, 0);
        lemma_not_starts_with("rightctrl"@, "ctrl"@, 0);
        lemma_not_starts_with("rightctrl"@, "control"@, 0);
        lemma_not_ends_with("rightctrl"@, "control"@, 0);
        lemma_not_starts_with("rightctrl"@, "shift"@, 0);
        lemma_not_ends_with("rightctrl"@, "shift"@, 0);
        lemma_not_starts_with("rightctrl"@, "alt"@, 0);
        lemma_not_ends_with("rightctrl"@, "alt"@, 0);
        lemma_not_starts_with("rightctrl"@, "option"@, 0);
        lemma_not_ends_with("rightctrl"@, "option"@, 0);
        lemma_not_starts_with("rightctrl"@, "pause"@, 0);
        lemma_not_ends_with("rightctrl"@, "pause"@, 0);
    }
    assert(key_words_fit("rctrl"@, TriggerKey::ControlRight)) by {
        reveal_strlit("rctrl"); reveal_strlit("r"); reveal_strlit("right"); reveal_strlit("gr"); reveal_strlit("l"); reveal_strlit("left"); reveal_strlit("ctrl"); reveal_strlit("control"); reveal_strlit("shift"); reveal_strlit("alt"); reveal_strlit("option"); reveal_strlit("pause"); reveal_strlit("scrolllock");
        lemma_not_ends_with("rctrl"@, "r"@, 0);
        lemma_not_starts_with("rctrl"@, "right"@, 1);
        lemma_not_ends_with("rctrl"@, "right"@, 1);
        lemma_not_starts_with("rctrl"@, "gr"@, 0);
        lemma_not_ends_with("rctrl"@, "gr"@, 0);
        lemma_not_starts_with("rctrl"@, "l"@, 0);
        lemma_not_starts_with("rctrl"@, "left"@, 0);
        lemma_not_ends_with("rctrl"@, "left"@, 0);
        lemma_not_starts_with("rctrl"@, "ctrl"@, 0);
        lemma_not_starts_with("rctrl"@, "shift"@, 0);
        lemma_not_ends_with("rctrl"@, "shift"@, 0);
        lemma_not_starts_with("rctrl"@, "alt"@, 0);
        lemma_not_ends_with("rctrl"@, "alt"@, 0);
        lemma_not_starts_with("rctrl"@, "pause"@, 0);
        lemma_not_ends_with("rctrl"@, "pause"@, 0);
    }
    assert(key_words_fit("controlright"@, TriggerKey::ControlRight)) by {
        reveal_strlit("controlright"); reveal_strlit("r"); reveal_strlit("right"); reveal_strlit("gr"); reveal_strlit("l"); reveal_strlit("left"); reveal_strlit("ctrl"); reveal_strlit("control"); reveal_strlit("shift"); reveal_strlit("alt"); reveal_strlit("option"); reveal_strlit("pause"); reveal_strlit("scrolllock");
        lemma_not_starts_with("controlright"@, "r"@, 0);
        lemma_not_ends_with("controlright"@, "r"@, 0);
        lemma_not_starts_with("controlright"@, "right"@, 0);
        lemma_not_starts_with("controlright"@, "gr"@, 0);
        lemma_not_ends_with("controlright"@, "gr"@, 0);
        lemma_not_starts_with("controlright"@, "l"@, 0);
        lemma_not_ends_with("controlright"@, "l"@, 0);
        lemma_not_starts_with("controlright"@, "left"@, 0);
        lemma_not_ends_with("controlright"@, "left"@, 0);
        lemma_not_starts_with("controlright"@, "ctrl"@, 1);
        lemma_not_ends_with("controlright"@, "ctrl"@, 0);
        lemma_not_ends_with("controlright"@, "control"@, 0);
        lemma_not_starts_with("controlright"@, "shift"@, 0);
        lemma_not_ends_with("controlright"@, "shift"@, 0);
        lemma_not_starts_with("controlright"@, "alt"@, 0);
        lemma_not_ends_with("controlright"@, "alt"@, 0);
        lemma_not_starts_with("controlright"@, "option"@, 0);
        lemma_not_ends_with("controlright"@, "option"@, 0);
        lemma_not_starts_with("controlright"@, "pause"@, 0);
        lemma_not_ends_with("controlright"@, "pause"@, 0);
        lemma_not_starts_with("controlright"@, "scrolllock"@, 0);
        lemma_not_ends_with("controlright"@, "scrolllock"@, 0);
    }
    assert(key_words_fit("leftctrl"@, TriggerKey::ControlLeft)) by {
        reveal_strlit("leftctrl"); reveal_strlit("r"); reveal_strlit("right"); reveal_strlit("gr"); reveal_strlit("l"); reveal_strlit("left"); reveal_strlit("ctrl"); reveal_strlit("control"); reveal_strlit("shift"); reveal_strlit("alt"); reveal_strlit("option"); reveal_strlit("pause"); reveal_strlit("scrolllock");
        lemma_not_starts_with("leftctrl"@, "r"@, 0);
        lemma_not_ends_with("leftctrl"@, "r"@, 0);
        lemma_not_starts_with("leftctrl"@, "right"@, 0);
        lemma_not_ends_with("leftctrl"@, "right"@, 0);
        lemma_not_starts_with("leftctrl"@, "gr"@, 0);
        lemma_not_ends_with("leftctrl"@, "gr"@, 0);
        lemma_not_ends_with("leftctrl"@, "left"@, 0);
        lemma_not_starts_with("leftctrl"@, "ctrl"@, 0);
        lemma_not_starts_with("leftctrl"@, "control"@, 0);
        lemma_not_ends_with("leftctrl"@, "control"@, 0);
        lemma_not_starts_with("leftctrl"@, "shift"@, 0);
        lemma_not_ends_with("leftctrl"@, "shift"@, 0);
        lemma_not_starts_with("leftctrl"@, "alt"@, 0);
        lemma_not_ends_with("leftctrl"@, "alt"@, 0);
        lemma_not_starts_with("leftctrl"@, "option"@, 0);
        lemma_not_ends_with("leftctrl"@, "option"@, 0);
        lemma_not_starts_with("leftctrl"@, "pause"@, 0);
        lemma_not_ends_with("leftctrl"@, "pause"@, 0);
    }
    assert(key_words_fit("lctrl"@, TriggerKey::ControlLeft)) by {
        reveal_strlit("lctrl"); reveal_strlit("r"); reveal_strlit("right"); reveal_strlit("gr"); reveal_strlit("l"); reveal_strlit("left"); reveal_strlit("ctrl"); reveal_strlit("control"); reveal_strlit("shift"); reveal_strlit("alt"); reveal_strlit("option"); reveal_strlit("pause"); reveal_strlit("scrolllock");
        lemma_not_starts_with("lctrl"@, "r"@, 0);
        lemma_not_ends_with("lctrl"@, "r"@, 0);
        lemma_not_starts_with("lctrl"@, "right"@, 0);
        lemma_not_ends_with("lctrl"@, "right"@, 0);
        lemma_not_starts_with("lctrl"@, "gr"@, 0);
        lemma_not_ends_with("lctrl"@, "gr"@, 0);
        lemma_not_starts_with("lctrl"@, "left"@, 1);
        lemma_not_ends_with("lctrl"@, "left"@, 0);
        lemma_not_starts_with("lctrl"@, "ctrl"@, 0);
        lemma_not_starts_with("lctrl"@, "shift"@, 0);
        lemma_not_ends_with("lctrl"@, "shift"@, 0);
        lemma_not_starts_with("lctrl"@, "alt"@, 0);
        lemma_not_ends_with("lctrl"@, "alt"@, 0);
        lemma_not_starts_with("lctrl"@, "pause"@, 0);
        lemma_not_ends_with("lctrl"@, "pause"@, 0);
    }
    assert(key_words_fit("controlleft"@, TriggerKey::ControlLeft)) by {
        reveal_strlit("controlleft"); reveal_strlit("r"); reveal_strlit("right"); reveal_strlit("gr"); reveal_strlit("l"); reveal_strlit("left"); reveal_strlit("ctrl"); reveal_strlit("control"); reveal_strlit("shift"); reveal_strlit("alt"); reveal_strlit("option"); reveal_strlit("pause"); reveal_strlit("scrolllock");
        lemma_not_starts_with("controlleft"@, "r"@, 0);
        lemma_not_ends_with("controlleft"@, "r"@, 0);
        lemma_not_starts_with("controlleft"@, "right"@, 0);
        lemma_not_ends_with("controlleft"@, "right"@, 0);
        lemma_not_starts_with("controlleft"@, "gr"@, 0);
        lemma_not_ends_with("controlleft"@, "gr"@, 0);
        lemma_not_starts_with("controlleft"@, "l"@, 0);
        lemma_not_ends_with("controlleft"@, "l"@, 0);
        lemma_not_starts_with("controlleft"@, "left"@, 0);
        lemma_not_starts_with("controlleft"@, "ctrl"@, 1);
        lemma_not_ends_with("controlleft"@, "ctrl"@, 0);
        lemma_not_ends_with("controlleft"@, "control"@, 0);
        lemma_not_starts_with("controlleft"@, "shift"@, 0);
        lemma_not_ends_with("controlleft"@, "shift"@, 0);
        lemma_not_starts_with("controlleft"@, "alt"@, 0);
        lemma_not_ends_with("controlleft"@, "alt"@, 0);
        lemma_not_starts_with("controlleft"@, "option"@, 0);
        lemma_not_ends_with("controlleft"@, "option"@, 1);
        lemma_not_starts_with("controlleft"@, "pause"@, 0);
        lemma_not_ends_with("controlleft"@, "pause"@, 0);
        lemma_not_starts_with("controlleft"@, "scrolllock"@, 0);
        lemma_not_ends_with("controlleft"@, "scrolllock"@, 0);
    }
    assert(key_words_fit("rightshift"@, TriggerKey::ShiftRight)) by {
        reveal_strlit("rightshift"); reveal_strlit("r"); reveal_strlit("right"); reveal_strlit("gr"); reveal_strlit("l"); reveal_strlit("left"); reveal_strlit("ctrl"); reveal_strlit("control"); reveal_strlit("shift"); reveal_strlit("alt"); reveal_strlit("option"); reveal_strlit("pause"); reveal_strlit("scrolllock");
        lemma_not_ends_with("rightshift"@, "r"@, 0);
        lemma_not_ends_with("rightshift"@, "right"@, 0);
        lemma_not_starts_with("rightshift"@, "gr"@, 0);
        lemma_not_ends_with("rightshift"@, "gr"@, 0);
        lemma_not_starts_with("rightshift"@, "l"@, 0);
        lemma_not_ends_with("rightshift"@, "l"@, 0);
        lemma_not_starts_with("rightshift"@, "left"@, 0);
        lemma_not_ends_with("rightshift"@, "left"@, 0);
        lemma_not_starts_with("rightshift"@, "ctrl"@, 0);
        lemma_not_ends_with("rightshift"@, "ctrl"@, 0);
        lemma_not_starts_with("rightshift"@, "control"@, 0);
        lemma_not_ends_with("rightshift"@, "control"@, 0);
        lemma_not_starts_with("rightshift"@, "shift"@, 0);
        lemma_not_starts_with("rightshift"@, "alt"@, 0);
        lemma_not_ends_with("rightshift"@, "alt"@, 0);
        lemma_not_starts_with("rightshift"@, "option"@, 0);
        lemma_not_ends_with("rightshift"@, "option"@, 0);
        lemma_not_starts_with("rightshift"@, "pause"@, 0);
        lemma_not_ends_with("rightshift"@, "pause"@, 0);
        lemma_not_starts_with("rightshift"@, "scrolllock"@, 0);
        lemma_not_ends_with("rightshift"@, "scrolllock"@, 0);
    }
    assert(key_words_fit("rshift"@, TriggerKey::ShiftRight)) by {
        reveal_strlit("rshift"); reveal_strlit("r"); reveal_strlit("right"); reveal_strlit("gr"); reveal_strlit("l"); reveal_strlit("left"); reveal_strlit("ctrl"); reveal_strlit("control"); reveal_strlit("shift"); reveal_strlit("alt"); reveal_strlit("option"); reveal_strlit("pause"); reveal_strlit("scrolllock");
        lemma_not_ends_with("rshift"@, "r"@, 0);
        lemma_not_starts_with("rshift"@, "right"@, 1);
        lemma_not_ends_with("rshift"@, "right"@, 0);
        lemma_not_starts_with("rshift"@, "gr"@, 0);
        lemma_not_ends_with("rshift"@, "gr"@, 0);
        lemma_not_starts_with("rshift"@, "l"@, 0);
        lemma_not_ends_with("rshift"@, "l"@, 0);
        lemma_not_starts_with("rshift"@, "left"@, 0);
        lemma_not_ends_with("rshift"@, "left"@, 0);
        lemma_not_starts_with("rshift"@, "ctrl"@, 0);
        lemma_not_ends_with("rshift"@, "ctrl"@, 0);
        lemma_not_starts_with("rshift"@, "shift"@, 0);
        lemma_not_starts_with("rshift"@, "alt"@, 0);
        lemma_not_ends_with("rshift"@, "alt"@, 0);
        lemma_not_starts_with("rshift"@, "option"@, 0);
        lemma_not_ends_with("rshift"@, "option"@, 0);
        lemma_not_starts_with("rshift"@, "pause"@, 0);
        lemma_not_ends_with("rshift"@, "pause"@, 0);
    }
    assert(key_words_fit("shiftright"@, TriggerKey::ShiftRight)) by {
        reveal_strlit("shiftright"); reveal_strlit("r"); reveal_strlit("right"); reveal_strlit("gr"); reveal_strlit("l"); reveal_strlit("left"); reveal_strlit("ctrl"); reveal_strlit("control"); reveal_strlit("shift"); reveal_strlit("alt"); reveal_strlit("option"); reveal_strlit("pause"); reveal_strlit("scrolllock");
        lemma_not_starts_with("shiftright"@, "r"@, 0);
        lemma_not_ends_with("shiftright"@, "r"@, 0);
        lemma_not_starts_with("shiftright"@, "right"@, 0);
        lemma_not_starts_with("shiftright"@, "gr"@, 0);
        lemma_not_ends_with("shiftright"@, "gr"@, 0);
        lemma_not_starts_with("shiftright"@, "l"@, 0);
        lemma_not_ends_with("shiftright"@, "l"@, 0);
        lemma_not_starts_with("shiftright"@, "left"@, 0);
        lemma_not_ends_with("shiftright"@, "left"@, 0);
        lemma_not_starts_with("shiftright"@, "ctrl"@, 0);
        lemma_not_ends_with("shiftright"@, "ctrl"@, 0);
        lemma_not_starts_with("shiftright"@, "control"@, 0);
        lemma_not_ends_with("shiftright"@, "control"@, 0);
        lemma_not_ends_with("shiftright"@, "shift"@, 0);
        lemma_not_starts_with("shiftright"@, "alt"@, 0);
        lemma_not_ends_with("shiftright"@, "alt"@, 0);
        lemma_not_starts_with("shiftright"@, "option"@, 0);
        lemma_not_ends_with("shiftright"@, "option"@, 0);
        lemma_not_starts_with("shiftright"@, "pause"@, 0);
        lemma_not_ends_with("shiftright"@, "pause"@, 0);
        lemma_not_starts_with("shiftright"@, "scrolllock"@, 1);
        lemma_not_ends_with("shiftright"@, "scrolllock"@, 1);
    }
    assert(key_words_fit("leftshift"@, TriggerKey::ShiftLeft)) by {
        reveal_strlit("leftshift"); reveal_strlit("r"); reveal_strlit("right"); reveal_strlit("gr"); reveal_strlit("l"); reveal_strlit("left"); reveal_strlit("ctrl"); reveal_strlit("control"); reveal_strlit("shift"); reveal_strlit("alt"); reveal_strlit("option"); reveal_strlit("pause"); reveal_strlit("scrolllock");
        lemma_not_starts_with("leftshift"@, "r"@, 0);
        lemma_not_ends_with("leftshift"@, "r"@, 0);
        lemma_not_starts_with("leftshift"@, "right"@, 0);
        lemma_not_ends_with("leftshift"@, "right"@, 0);
        lemma_not_starts_with("leftshift"@, "gr"@, 0);
        lemma_not_ends_with("leftshift"@, "gr"@, 0);
        lemma_not_ends_with("leftshift"@, "l"@, 0);
        lemma_not_ends_with("leftshift"@, "left"@, 0);
        lemma_not_starts_with("leftshift"@, "ctrl"@, 0);
        lemma_not_ends_with("leftshift"@, "ctrl"@, 0);
        lemma_not_starts_with("leftshift"@, "control"@, 0);
        lemma_not_ends_with("leftshift"@, "control"@, 0);
        lemma_not_starts_with("leftshift"@, "shift"@, 0);
        lemma_not_starts_with("leftshift"@, "alt"@, 0);
        lemma_not_ends_with("leftshift"@, "alt"@, 0);
        lemma_not_starts_with("leftshift"@, "option"@, 0);
        lemma_not_ends_with("leftshift"@, "option"@, 0);
        lemma_not_starts_with("leftshift"@, "pause"@, 0);
        lemma_not_ends_with("leftshift"@, "pause"@, 0);
    }
    assert(key_words_fit("lshift"@, TriggerKey::ShiftLeft)) by {
        reveal_strlit("lshift"); reveal_strlit("r"); reveal_strlit("right"); reveal_strlit("gr"); reveal_strlit("l"); reveal_strlit("left"); reveal_strlit("ctrl"); reveal_strlit("control"); reveal_strlit("shift"); reveal_strlit("alt"); reveal_strlit("option"); reveal_strlit("pause"); reveal_strlit("scrolllock");
        lemma_not_starts_with("lshift"@, "r"@, 0);
        lemma_not_ends_with("lshift"@, "r"@, 0);
        lemma_not_starts_with("lshift"@, "right"@, 0);
        lemma_not_ends_with("lshift"@, "right"@, 0);
        lemma_not_starts_with("lshift"@, "gr"@, 0);
        lemma_not_ends_with("lshift"@, "gr"@, 0);
        lemma_not_ends_with("lshift"@, "l"@, 0);
        lemma_not_starts_with("lshift"@, "left"@, 1);
        lemma_not_ends_with("lshift"@, "left"@, 0);
        lemma_not_starts_with("lshift"@, "ctrl"@, 0);
        lemma_not_ends_with("lshift"@, "ctrl"@, 0);
        lemma_not_starts_with("lshift"@, "shift"@, 0);
        lemma_not_starts_with("lshift"@, "alt"@, 0);
        lemma_not_ends_with("lshift"@, "alt"@, 0);
        lemma_not_starts_with("lshift"@, "option"@, 0);
        lemma_not_ends_with("lshift"@, "option"@, 0);
        lemma_not_starts_with("lshift"@, "pause"@, 0);
        lemma_not_ends_with("lshift"@, "pause"@, 0);
    }
    assert(key_words_fit("shiftleft"@, TriggerKey::ShiftLeft)) by {
        reveal_strlit("shiftleft"); reveal_strlit("r"); reveal_strlit("right"); reveal_strlit("gr"); reveal_strlit("l"); reveal_strlit("left"); reveal_strlit("ctrl"); reveal_strlit("control"); reveal_strlit("shift"); reveal_strlit("alt"); reveal_strlit("option"); reveal_strlit("pause"); reveal_strlit("scrolllock");
        lemma_not_starts_with("shiftleft"@, "r"@, 0);
        lemma_not_ends_with("shiftleft"@, "r"@, 0);
        lemma_not_starts_with("shiftleft"@, "right"@, 0);
        lemma_not_ends_with("shiftleft"@, "right"@, 0);
        lemma_not_starts_with("shiftleft"@, "gr"@, 0);
        lemma_not_ends_with("shiftleft"@, "gr"@, 0);
        lemma_not_starts_with("shiftleft"@, "l"@, 0);
        lemma_not_ends_with("shiftleft"@, "l"@, 0);
        lemma_not_starts_with("shiftleft"@, "left"@, 0);
        lemma_not_starts_with("shiftleft"@, "ctrl"@, 0);
        lemma_not_ends_with("shiftleft"@, "ctrl"@, 0);
        lemma_not_starts_with("shiftleft"@, "control"@, 0);
        lemma_not_ends_with("shiftleft"@, "control"@, 0);
        lemma_not_ends_with("shiftleft"@, "shift"@, 0);
        lemma_not_starts_with("shiftleft"@, "alt"@, 0);
        lemma_not_ends_with("shiftleft"@, "alt"@, 0);
        lemma_not_starts_with("shiftleft"@, "option"@, 0);
        lemma_not_ends_with("shiftleft"@, "option"@, 0);
        lemma_not_starts_with("shiftleft"@, "pause"@, 0);
        lemma_not_ends_with("shiftleft"@, "pause"@, 0);
    }
    assert(key_words_fit("pause"@, TriggerKey::Pause)) by {
        reveal_strlit("pause"); reveal_strlit("r"); reveal_strlit("right"); reveal_strlit("gr"); reveal_strlit("l"); reveal_strlit("left"); reveal_strlit("ctrl"); reveal_strlit("control"); reveal_strlit("shift"); reveal_strlit("alt"); reveal_strlit("option"); reveal_strlit("pause"); reveal_strlit("scrolllock");
        lemma_not_starts_with("pause"@, "r"@, 0);
        lemma_not_ends_with("pause"@, "r"@, 0);
        lemma_not_starts_with("pause"@, "right"@, 0);
        lemma_not_ends_with("pause"@, "right"@, 0);
        lemma_not_starts_with("pause"@, "gr"@, 0);
        lemma_not_ends_with("pause"@, "gr"@, 0);
        lemma_not_starts_with("pause"@, "l"@, 0);
        lemma_not_ends_with("pause"@, "l"@, 0);
        lemma_not_starts_with("pause"@, "left"@, 0);
        lemma_not_ends_with("pause"@, "left"@, 0);
        lemma_not_starts_with("pause"@, "ctrl"@, 0);
        lemma_not_ends_with("pause"@, "ctrl"@, 0);
        lemma_not_starts_with("pause"@, "shift"@, 0);
        lemma_not_ends_with("pause"@, "shift"@, 0);
        lemma_not_starts_with("pause"@, "alt"@, 0);
        lemma_not_ends_with("pause"@, "alt"@, 0);
    }
    assert(key_words_fit("pausebreak"@, TriggerKey::Pause)) by {
        reveal_strlit("pausebreak"); reveal_strlit("r"); reveal_strlit("right"); reveal_strlit("gr"); reveal_strlit("l"); reveal_strlit("left"); reveal_strlit("ctrl"); reveal_strlit("control"); reveal_strlit("shift"); reveal_strlit("alt"); reveal_strlit("option"); reveal_strlit("pause"); reveal_strlit("scrolllock");
        lemma_not_starts_with("pausebreak"@, "r"@, 0);
        lemma_not_ends_with("pausebreak"@, "r"@, 0);
        lemma_not_starts_with("pausebreak"@, "right"@, 0);
        lemma_not_ends_with("pausebreak"@, "right"@, 0);
        lemma_not_starts_with("pausebreak"@, "gr"@, 0);
        lemma_not_ends_with("pausebreak"@, "gr"@, 0);
        lemma_not_starts_with("pausebreak"@, "l"@, 0);
        lemma_not_ends_with("pausebreak"@, "l"@, 0);
        lemma_not_starts_with("pausebreak"@, "left"@, 0);
        lemma_not_ends_with("pausebreak"@, "left"@, 0);
        lemma_not_starts_with("pausebreak"@, "ctrl"@, 0);
        lemma_not_ends_with("pausebreak"@, "ctrl"@, 0);
        lemma_not_starts_with("pausebreak"@, "control"@, 0);
        lemma_not_ends_with("pausebreak"@, "control"@, 0);
        lemma_not_starts_with("pausebreak"@, "shift"@, 0);
        lemma_not_ends_with("pausebreak"@, "shift"@, 0);
        lemma_not_starts_with("pausebreak"@, "alt"@, 0);
        lemma_not_ends_with("pausebreak"@, "alt"@, 0);
        lemma_not_starts_with("pausebreak"@, "option"@, 0);
        lemma_not_ends_with("pausebreak"@, "option"@, 0);
        lemma_not_ends_with("pausebreak"@, "pause"@, 0);
        lemma_not_starts_with("pausebreak"@, "scrolllock"@, 0);
        lemma_not_ends_with("pausebreak"@, "scrolllock"@, 0);
    }
    assert(key_words_fit("scrolllock"@, TriggerKey::ScrollLock)) by {
        reveal_strlit("scrolllock"); reveal_strlit("r"); reveal_strlit("right"); reveal_strlit("gr"); reveal_strlit("l"); reveal_strlit("left"); reveal_strlit("ctrl"); reveal_strlit("control"); reveal_strlit("shift"); reveal_strlit("alt"); reveal_strlit("option"); reveal_strlit("pause"); reveal_strlit("scrolllock");
        lemma_not_starts_with("scrolllock"@, "r"@, 0);
        lemma_not_ends_with("scrolllock"@, "r"@, 0);
        lemma_not_starts_with("scrolllock"@, "right"@, 0);
        lemma_not_ends_with("scrolllock"@, "right"@, 0);
        lemma_not_starts_with("scrolllock"@, "gr"@, 0);
        lemma_not_ends_with("scrolllock"@, "gr"@, 0);
        lemma_not_starts_with("scrolllock"@, "l"@, 0);
        lemma_not_ends_with("scrolllock"@, "l"@, 0);
        lemma_not_starts_with("scrolllock"@, "left"@, 0);
        lemma_not_ends_with("scrolllock"@, "left"@, 1);
        lemma_not_starts_with("scrolllock"@, "ctrl"@, 0);
        lemma_not_ends_with("scrolllock"@, "ctrl"@, 0);
        lemma_not_starts_with("scrolllock"@, "control"@, 0);
        lemma_not_ends_with("scrolllock"@, "control"@, 0);
        lemma_not_starts_with("scrolllock"@, "shift"@, 1);
        lemma_not_ends_with("scrolllock"@, "shift"@, 0);
        lemma_not_starts_with("scrolllock"@, "alt"@, 0);
        lemma_not_ends_with("scrolllock"@, "alt"@, 0);
        lemma_not_starts_with("scrolllock"@, "option"@, 0);
        lemma_not_ends_with("scrolllock"@, "option"@, 0);
        lemma_not_starts_with("scrolllock"@, "pause"@, 0);
        lemma_not_ends_with("scrolllock"@, "pause"@, 0);
    }
}


/// Reading a key name a second time changes nothing: a name `parse_hotkey` accepts
/// is accepted with the same key once trimmed and lower-cased, and an all-ASCII name
/// gets the same answer either way.
pub proof fn lemma_parse_hotkey_normal_form(s: Seq<char>)
    ensures
        key_named(key_name_form(s)) matches Some(k) ==> key_named(key_name_form(key_name_form(s)))
            == Some(k),
        all_ascii(trimmed(s)) ==> key_named(key_name_form(key_name_form(s))) == key_named(
            key_name_form(s),
        ),
{
    lemma_key_name_form_stable(s);
    if key_named(key_name_form(s)) is Some {
        lemma_key_names_are_words(key_name_form(s));
        lemma_key_name_form_stable(key_name_form(s));
    }
}

/// Surrounding whitespace never matters to a key name.
pub proof fn lemma_key_name_ignores_space(s: Seq<char>)
    ensures
        key_name_form(trimmed(s)) == key_name_form(s),
{
    lemma_trim_idempotent(s, TrimClass::Space);
}

/// For ASCII names, letter case never matters: names that agree up to ASCII case have
/// the same normal form once lower-cased (which is what `to_lowercase` yields on ASCII).
pub proof fn lemma_key_name_ignores_case(a: Seq<char>, b: Seq<char>)
    requires
        ascii_lower_seq(a) == ascii_lower_seq(b),
    ensures
        ascii_lower_seq(trimmed(a)) == ascii_lower_seq(trimmed(b)),
{
    lemma_trim_lower_commute(a, TrimClass::Space);
    lemma_trim_lower_commute(b, TrimClass::Space);
}

} // verus!

//! The push-to-talk key of the tray edition. On macOS the key is watched through
//! the modifier flags of a listen-only event tap; elsewhere through key events.

use vstd::prelude::*;
use crate::hotkey::{
    has_word, hold_step, key_name_form, key_words_fit, lemma_key_name_form_stable,
    lemma_not_ends_with, lemma_not_starts_with, names_left_side, names_right_side, HotkeyError,
    TriggerKey,
};
use crate::text::{all_ascii, is_lower_word, same_text, to_lowercase, trim, trimmed};

verus! {

pub use crate::hotkey::HotkeyEvent;

/// Device-dependent modifier bits of `CGEventFlags` (left and right told apart).
pub const DEV_L_CTRL: u64 = 0x0000_0001;
pub const DEV_L_SHIFT: u64 = 0x0000_0002;
pub const DEV_R_SHIFT: u64 = 0x0000_0004;
pub const DEV_L_CMD: u64 = 0x0000_0008;
pub const DEV_R_CMD: u64 = 0x0000_0010;
pub const DEV_L_ALT: u64 = 0x0000_0020;
pub const DEV_R_ALT: u64 = 0x0000_0040;
pub const DEV_R_CTRL: u64 = 0x0000_2000;
/// `kCGEventFlagMaskSecondaryFn`.
pub const FN_MASK: u64 = 0x0080_0000;

/// `kCGEventFlagsChanged`.
pub const FLAGS_CHANGED: u32 = 12;
/// The tap was disabled by a timeout.
pub const TAP_DISABLED_TIMEOUT: u32 = 0xFFFF_FFFE;
/// The tap was disabled by user input.
pub const TAP_DISABLED_USER_INPUT: u32 = 0xFFFF_FFFF;

/// The modifier bit for an already trimmed, lower-cased key name.
pub open spec fn mask_named(n: Seq<char>) -> Option<u64> {
    if n == "rightoption"@ || n == "roption"@ || n == "optionright"@ || n == "rightalt"@ || n
        == "ralt"@ || n == "altgr"@ {
        Some(DEV_R_ALT)
    } else if n == "leftoption"@ || n == "loption"@ || n == "optionleft"@ || n == "leftalt"@ || n
        == "lalt"@ {
        Some(DEV_L_ALT)
    } else if n == "rightcommand"@ || n == "rcommand"@ || n == "rightcmd"@ || n == "rcmd"@ || n
        == "commandright"@ || n == "rightmeta"@ || n == "rmeta"@ {
        Some(DEV_R_CMD)
    } else if n == "leftcommand"@ || n == "lcommand"@ || n == "leftcmd"@ || n == "lcmd"@ || n
        == "leftmeta"@ || n == "lmeta"@ {
        Some(DEV_L_CMD)
    } else if n == "rightctrl"@ || n == "rctrl"@ || n == "controlright"@ || n == "rightcontrol"@ {
        Some(DEV_R_CTRL)
    } else if n == "leftctrl"@ || n == "lctrl"@ || n == "controlleft"@ || n == "leftcontrol"@ {
        Some(DEV_L_CTRL)
    } else if n == "rightshift"@ || n == "rshift"@ || n == "shiftright"@ {
        Some(DEV_R_SHIFT)
    } else if n == "leftshift"@ || n == "lshift"@ || n == "shiftleft"@ {
        Some(DEV_L_SHIFT)
    } else if n == "fn"@ || n == "function"@ || n == "globe"@ {
        Some(FN_MASK)
    } else {
        None
    }
}

/// The key for a trimmed, lower-cased name on platforms that use key events.
pub open spec fn portable_key_named(n: Seq<char>) -> Option<TriggerKey> {
    if n == "rightalt"@ || n == "ralt"@ || n == "altgr"@ || n == "rightoption"@ || n
        == "roption"@ {
        Some(TriggerKey::AltGr)
    } else if n == "rightctrl"@ || n == "rctrl"@ || n == "controlright"@ {
        Some(TriggerKey::ControlRight)
    } else if n == "leftctrl"@ || n == "lctrl"@ || n == "controlleft"@ {
        Some(TriggerKey::ControlLeft)
    } else if n == "rightshift"@ || n == "rshift"@ || n == "shiftright"@ {
        Some(TriggerKey::ShiftRight)
    } else if n == "leftshift"@ || n == "lshift"@ || n == "shiftleft"@ {
        Some(TriggerKey::ShiftLeft)
    } else if n == "pause"@ || n == "pausebreak"@ {
        Some(TriggerKey::Pause)
    } else if n == "scrolllock"@ {
        Some(TriggerKey::ScrollLock)
    } else {
        None
    }
}

fn is_any(a: &str, names: &[&str]) -> (b: bool)
    ensures
        b == exists|i: int| 0 <= i < names@.len() && a@ == names@[i]@,
{
    let mut i: usize = 0;
    while i < names.len()
        invariant
            i <= names@.len(),
            forall|j: int| 0 <= j < i ==> a@ != #[trigger] names@[j]@,
        decreases names@.len() - i,
    {
        if same_text(a, names[i]) {
            return true;
        }
        i = i + 1;
    }
    false
}

/// The modifier bit watched for a key name (case- and surrounding-space-insensitive).
pub fn mask_for(name: &str) -> (r: Result<u64, HotkeyError>)
    ensures
        mask_named(key_name_form(name@)) matches Some(m) ==> r == Ok::<u64, HotkeyError>(m),
        mask_named(key_name_form(name@)) is None ==> (r matches Err(HotkeyError::Unknown(n))
            && n@ == key_name_form(name@)),
{
    let t = trim(name);
    let l = to_lowercase(t.as_str());
    let n = l.as_str();
    if is_any(n, &["rightoption", "roption", "optionright", "rightalt", "ralt", "altgr"]) {
        Ok(DEV_R_ALT)
    } else if is_any(n, &["leftoption", "loption", "optionleft", "leftalt", "lalt"]) {
        Ok(DEV_L_ALT)
    } else if is_any(
        n,
        &["rightcommand", "rcommand", "rightcmd", "rcmd", "commandright", "rightmeta", "rmeta"],
    ) {
        Ok(DEV_R_CMD)
    } else if is_any(n, &["leftcommand", "lcommand", "leftcmd", "lcmd", "leftmeta", "lmeta"]) {
        Ok(DEV_L_CMD)
    } else if is_any(n, &["rightctrl", "rctrl", "controlright", "rightcontrol"]) {
        Ok(DEV_R_CTRL)
    } else if is_any(n, &["leftctrl", "lctrl", "controlleft", "leftcontrol"]) {
        Ok(DEV_L_CTRL)
    } else if is_any(n, &["rightshift", "rshift", "shiftright"]) {
        Ok(DEV_R_SHIFT)
    } else if is_any(n, &["leftshift", "lshift", "shiftleft"]) {
        Ok(DEV_L_SHIFT)
    } else if is_any(n, &["fn", "function", "globe"]) {
        Ok(FN_MASK)
    } else {
        Err(HotkeyError::Unknown(l))
    }
}

/// The key watched on platforms that use key events (case- and
/// surrounding-space-insensitive); right Option is accepted as right Alt.
pub fn parse_hotkey(s: &str) -> (r: Result<TriggerKey, HotkeyError>)
    ensures
        portable_key_named(key_name_form(s@)) matches Some(k) ==> r == Ok::<
            TriggerKey,
            HotkeyError,
        >(k),
        portable_key_named(key_name_form(s@)) is None ==> (r matches Err(HotkeyError::Unknown(n))
            && n@ == key_name_form(s@)),
{
    let t = trim(s);
    let l = to_lowercase(t.as_str());
    let n = l.as_str();
    if is_any(n, &["rightalt", "ralt", "altgr", "rightoption", "roption"]) {
        Ok(TriggerKey::AltGr)
    } else if is_any(n, &["rightctrl", "rctrl", "controlright"]) {
        Ok(TriggerKey::ControlRight)
    } else if is_any(n, &["leftctrl", "lctrl", "controlleft"]) {
        Ok(TriggerKey::ControlLeft)
    } else if is_any(n, &["rightshift", "rshift", "shiftright"]) {
        Ok(TriggerKey::ShiftRight)
    } else if is_any(n, &["leftshift", "lshift", "shiftleft"]) {
        Ok(TriggerKey::ShiftLeft)
    } else if is_any(n, &["pause", "pausebreak"]) {
        Ok(TriggerKey::Pause)
    } else if is_any(n, &["scrolllock"]) {
        Ok(TriggerKey::ScrollLock)
    } else {
        Err(HotkeyError::Unknown(l))
    }
}

/// What the event tap does with one event.
#[derive(Debug, PartialEq, Eq, Structural)]
pub enum TapAction {
    /// The system disabled the tap: enable it again.
    Reenable,
    /// Report this edge of the key.
    Report(HotkeyEvent),
    /// Nothing to do.
    Ignore,
}

/// One event of the tap: `(down, mask, event type, flags)` to the new key state and
/// the action.
pub open spec fn tap_step(down: bool, mask: u64, etype: u32, flags: u64) -> (bool, TapAction) {
    if etype == TAP_DISABLED_TIMEOUT || etype == TAP_DISABLED_USER_INPUT {
        (down, TapAction::Reenable)
    } else if etype == FLAGS_CHANGED {
        let now = (flags & mask) != 0;
        if now != down {
            (now, TapAction::Report(if now {
                HotkeyEvent::Press
            } else {
                HotkeyEvent::Release
            }))
        } else {
            (down, TapAction::Ignore)
        }
    } else {
        (down, TapAction::Ignore)
    }
}

/// The state the tap keeps: which modifier bit it watches and whether it is down.
pub struct TapTracker {
    pub mask: u64,
    pub down: bool,
}

impl TapTracker {
    pub fn new(mask: u64) -> (r: TapTracker)
        ensures
            r.mask == mask,
            !r.down,
    {
        TapTracker { mask, down: false }
    }

    /// Handles one tap event of type `etype` carrying modifier `flags`.
    pub fn on_event(&mut self, etype: u32, flags: u64) -> (r: TapAction)
        ensures
            final(self).mask == old(self).mask,
            (final(self).down, r) == tap_step(old(self).down, old(self).mask, etype, flags),
    {
        if etype == TAP_DISABLED_TIMEOUT || etype == TAP_DISABLED_USER_INPUT {
            return TapAction::Reenable;
        }
        if etype == FLAGS_CHANGED {
            let now = (flags & self.mask) != 0;
            if now != self.down {
                self.down = now;
                return TapAction::Report(
                    if now {
                        HotkeyEvent::Press
                    } else {
                        HotkeyEvent::Release
                    },
                );
            }
        }
        TapAction::Ignore
    }
}


/// The masks `mask_for` can give: one device-dependent modifier bit, or `Fn`.
pub open spec fn is_modifier_bit(m: u64) -> bool {
    ||| m == DEV_L_CTRL
    ||| m == DEV_L_SHIFT
    ||| m == DEV_R_SHIFT
    ||| m == DEV_L_CMD
    ||| m == DEV_R_CMD
    ||| m == DEV_L_ALT
    ||| m == DEV_R_ALT
    ||| m == DEV_R_CTRL
    ||| m == FN_MASK
}

proof fn lemma_mask_names_are_words(n: Seq<char>)
    requires
        mask_named(n) is Some,
    ensures
        is_lower_word(n),
{
    reveal_strlit("rightoption");
    reveal_strlit("roption");
    reveal_strlit("optionright");
    reveal_strlit("rightalt");
    reveal_strlit("ralt");
    reveal_strlit("altgr");
    reveal_strlit("leftoption");
    reveal_strlit("loption");
    reveal_strlit("optionleft");
    reveal_strlit("leftalt");
    reveal_strlit("lalt");
    reveal_strlit("rightcommand");
    reveal_strlit("rcommand");
    reveal_strlit("rightcmd");
    reveal_strlit("rcmd");
    reveal_strlit("commandright");
    reveal_strlit("rightmeta");
    reveal_strlit("rmeta");
    reveal_strlit("leftcommand");
    reveal_strlit("lcommand");
    reveal_strlit("leftcmd");
    reveal_strlit("lcmd");
    reveal_strlit("leftmeta");
    reveal_strlit("lmeta");
    reveal_strlit("rightctrl");
    reveal_strlit("rctrl");
    reveal_strlit("controlright");
    reveal_strlit("rightcontrol");
    reveal_strlit("leftctrl");
    reveal_strlit("lctrl");
    reveal_strlit("controlleft");
    reveal_strlit("leftcontrol");
    reveal_strlit("rightshift");
    reveal_strlit("rshift");
    reveal_strlit("shiftright");
    reveal_strlit("leftshift");
    reveal_strlit("lshift");
    reveal_strlit("shiftleft");
    reveal_strlit("fn");
    reveal_strlit("function");
    reveal_strlit("globe");
}

proof fn lemma_portable_names_are_words(n: Seq<char>)
    requires
        portable_key_named(n) is Some,
    ensures
        is_lower_word(n),
{
    reveal_strlit("rightalt");
    reveal_strlit("ralt");
    reveal_strlit("altgr");
    reveal_strlit("rightoption");
    reveal_strlit("roption");
    reveal_strlit("rightctrl");
    reveal_strlit("rctrl");
    reveal_strlit("controlright");
    reveal_strlit("leftctrl");
    reveal_strlit("lctrl");
    reveal_strlit("controlleft");
    reveal_strlit("rightshift");
    reveal_strlit("rshift");
    reveal_strlit("shiftright");
    reveal_strlit("leftshift");
    reveal_strlit("lshift");
    reveal_strlit("shiftleft");
    reveal_strlit("pause");
    reveal_strlit("pausebreak");
    reveal_strlit("scrolllock");
}

/// Reading a key name a second time changes nothing, and every accepted name
/// stands for one modifier: a name `mask_for` accepts is accepted with the same mask
/// once trimmed and lower-cased, and an all-ASCII name gets the same answer either
/// way.
pub proof fn lemma_mask_for_normal_form(s: Seq<char>)
    ensures
        mask_named(key_name_form(s)) matches Some(m) ==> mask_named(
            key_name_form(key_name_form(s)),
        ) == Some(m) && is_modifier_bit(m),
        all_ascii(trimmed(s)) ==> mask_named(key_name_form(key_name_form(s))) == mask_named(
            key_name_form(s),
        ),
{
    lemma_key_name_form_stable(s);
    if mask_named(key_name_form(s)) is Some {
        lemma_mask_names_are_words(key_name_form(s));
        lemma_key_name_form_stable(key_name_form(s));
    }
}

/// The same for the key-event table: a name `parse_hotkey` accepts is accepted with
/// the same key once trimmed and lower-cased, and an all-ASCII name gets the same
/// answer either way.
pub proof fn lemma_parse_hotkey_normal_form(s: Seq<char>)
    ensures
        portable_key_named(key_name_form(s)) matches Some(k) ==> portable_key_named(
            key_name_form(key_name_form(s)),
        ) == Some(k),
        all_ascii(trimmed(s)) ==> portable_key_named(key_name_form(key_name_form(s)))
            == portable_key_named(key_name_form(s)),
{
    lemma_key_name_form_stable(s);
    if portable_key_named(key_name_form(s)) is Some {
        lemma_portable_names_are_words(key_name_form(s));
        lemma_key_name_form_stable(key_name_form(s));
    }
}

/// What the words of a key name say of its modifier bit: a right-hand name
/// (`r…`, `…right`, `altgr`) gives a right-hand bit, a left-hand name (`l…`,
/// `…left`) a left-hand bit, and the kind word (`ctrl`/`control`, `shift`,
/// `cmd`/`command`/`meta`, `alt`/`option`, `fn`/`function`/`globe`) the bits of that
/// modifier. The values are the device-dependent bits of `CGEventFlags`.
pub open spec fn mask_words_fit(n: Seq<char>, m: u64) -> bool {
    &&& names_right_side(n) ==> (m == 0x4 || m == 0x10 || m == 0x40 || m == 0x2000)
    &&& names_left_side(n) ==> (m == 0x1 || m == 0x2 || m == 0x8 || m == 0x20)
    &&& (has_word(n, "ctrl"@) || has_word(n, "control"@)) ==> (m == 0x1 || m == 0x2000)
    &&& has_word(n, "shift"@) ==> (m == 0x2 || m == 0x4)
    &&& (has_word(n, "cmd"@) || has_word(n, "command"@) || has_word(n, "meta"@)) ==> (m == 0x8
        || m == 0x10)
    &&& (has_word(n, "alt"@) || has_word(n, "option"@)) ==> (m == 0x20 || m == 0x40)
    &&& (has_word(n, "fn"@) || has_word(n, "function"@) || has_word(n, "globe"@)) ==> m
        == 0x80_0000
}

/// Every name `mask_for` accepts (after trimming and lower-casing) gives the bit of
/// the modifier it names: its side (right names never give a left bit, left names
/// never a right bit) and its kind. Side and kind together fix the bit, so all
/// aliases of one key agree.
#[verifier::spinoff_prover]
#[verifier::rlimit(60)]
pub proof fn lemma_mask_names_mean_their_bit(n: Seq<char>)
    requires
        mask_named(n) is Some,
    ensures
        mask_words_fit(n, mask_named(n)->0),
{
    assert(mask_words_fit("rightoption"@, DEV_R_ALT)) by {
        reveal_strlit("rightoption"); reveal_strlit("r"); reveal_strlit("right"); reveal_strlit("gr"); reveal_strlit("l"); reveal_strlit("left"); reveal_strlit("ctrl"); reveal_strlit("control"); reveal_strlit("shift"); reveal_strlit("cmd"); reveal_strlit("command"); reveal_strlit("meta"); reveal_strlit("alt"); reveal_strlit("option"); reveal_strlit("fn"); reveal_strlit("function"); reveal_strlit("globe");
        lemma_not_ends_with("rightoption"@, "r"@, 0);
        lemma_not_ends_with("rightoption"@, "right"@, 0);
        lemma_not_starts_with("rightoption"@, "gr"@, 0);
        lemma_not_ends_with("rightoption"@, "gr"@, 0);
        lemma_not_starts_with("rightoption"@, "l"@, 0);
        lemma_not_ends_with("rightoption"@, "l"@, 0);
        lemma_not_starts_with("rightoption"@, "left"@, 0);
        lemma_not_ends_with("rightoption"@, "left"@, 0);
        lemma_not_starts_with("rightoption"@, "ctrl"@, 0);
        lemma_not_ends_with("rightoption"@, "ctrl"@, 0);
        lemma_not_starts_with("rightoption"@, "control"@, 0);
        lemma_not_ends_with("rightoption"@, "control"@, 0);
        lemma_not_starts_with("rightoption"@, "shift"@, 0);
        lemma_not_ends_with("rightoption"@, "shift"@, 0);
        lemma_not_starts_with("rightoption"@, "cmd"@, 0);
        lemma_not_ends_with("rightoption"@, "cmd"@, 0);
        lemma_not_starts_with("rightoption"@, "command"@, 0);
        lemma_not_ends_with("rightoption"@, "command"@, 0);
        lemma_not_starts_with("rightoption"@, "meta"@, 0);
        lemma_not_ends_with("rightoption"@, "meta"@, 0);
        lemma_not_starts_with("rightoption"@, "alt"@, 0);
        lemma_not_ends_with("rightoption"@, "alt"@, 0);
        lemma_not_starts_with("rightoption"@, "option"@, 0);
        lemma_not_starts_with("rightoption"@, "fn"@, 0);
        lemma_not_ends_with("rightoption"@, "fn"@, 0);
        lemma_not_starts_with("rightoption"@, "function"@, 0);
        lemma_not_ends_with("rightoption"@, "function"@, 0);
        lemma_not_starts_with("rightoption"@, "globe"@, 0);
        lemma_not_ends_with("rightoption"@, "globe"@, 0);
    }
    assert(mask_words_fit("roption"@, DEV_R_ALT)) by {
        reveal_strlit("roption"); reveal_strlit("r"); reveal_strlit("right"); reveal_strlit("gr"); reveal_strlit("l"); reveal_strlit("left"); reveal_strlit("ctrl"); reveal_strlit("control"); reveal_strlit("shift"); reveal_strlit("cmd"); reveal_strlit("command"); reveal_strlit("meta"); reveal_strlit("alt"); reveal_strlit("option"); reveal_strlit("fn"); reveal_strlit("function"); reveal_strlit("globe");
        lemma_not_ends_with("roption"@, "r"@, 0);
        lemma_not_starts_with("roption"@, "right"@, 1);
        lemma_not_ends_with("roption"@, "right"@, 0);
        lemma_not_starts_with("roption"@, "gr"@, 0);
        lemma_not_ends_with("roption"@, "gr"@, 0);
        lemma_not_starts_with("roption"@, "l"@, 0);
        lemma_not_ends_with("roption"@, "l"@, 0);
        lemma_not_starts_with("roption"@, "left"@, 0);
        lemma_not_ends_with("roption"@, "left"@, 0);
        lemma_not_starts_with("roption"@, "ctrl"@, 0);
        lemma_not_ends_with("roption"@, "ctrl"@, 0);
        lemma_not_starts_with("roption"@, "control"@, 0);
        lemma_not_ends_with("roption"@, "control"@, 0);
        lemma_not_starts_with("roption"@, "shift"@, 0);
        lemma_not_ends_with("roption"@, "shift"@, 0);
        lemma_not_starts_with("roption"@, "cmd"@, 0);
        lemma_not_ends_with("roption"@, "cmd"@, 0);
        lemma_not_starts_with("roption"@, "command"@, 0);
        lemma_not_ends_with("roption"@, "command"@, 0);
        lemma_not_starts_with("roption"@, "meta"@, 0);
        lemma_not_ends_with("roption"@, "meta"@, 0);
        lemma_not_starts_with("roption"@, "alt"@, 0);
        lemma_not_ends_with("roption"@, "alt"@, 0);
        lemma_not_starts_with("roption"@, "option"@, 0);
        lemma_not_starts_with("roption"@, "fn"@, 0);
        lemma_not_ends_with("roption"@, "fn"@, 0);
        lemma_not_starts_with("roption"@, "globe"@, 0);
        lemma_not_ends_with("roption"@, "globe"@, 0);
    }
    assert(mask_words_fit("optionright"@, DEV_R_ALT)) by {
        reveal_strlit("optionright"); reveal_strlit("r"); reveal_strlit("right"); reveal_strlit("gr"); reveal_strlit("l"); reveal_strlit("left"); reveal_strlit("ctrl"); reveal_strlit("control"); reveal_strlit("shift"); reveal_strlit("cmd"); reveal_strlit("command"); reveal_strlit("meta"); reveal_strlit("alt"); reveal_strlit("option"); reveal_strlit("fn"); reveal_strlit("function"); reveal_strlit("globe");
        lemma_not_starts_with("optionright"@, "r"@, 0);
        lemma_not_ends_with("optionright"@, "r"@, 0);
        lemma_not_starts_with("optionright"@, "right"@, 0);
        lemma_not_starts_with("optionright"@, "gr"@, 0);
        lemma_not_ends_with("optionright"@, "gr"@, 0);
        lemma_not_starts_with("optionright"@, "l"@, 0);
        lemma_not_ends_with("optionright"@, "l"@, 0);
        lemma_not_starts_with("optionright"@, "left"@, 0);
        lemma_not_ends_with("optionright"@, "left"@, 0);
        lemma_not_starts_with("optionright"@, "ctrl"@, 0);
        lemma_not_ends_with("optionright"@, "ctrl"@, 0);
        lemma_not_starts_with("optionright"@, "control"@, 0);
        lemma_not_ends_with("optionright"@, "control"@, 0);
        lemma_not_starts_with("optionright"@, "shift"@, 0);
        lemma_not_ends_with("optionright"@, "shift"@, 0);
        lemma_not_starts_with("optionright"@, "cmd"@, 0);
        lemma_not_ends_with("optionright"@, "cmd"@, 0);
        lemma_not_starts_with("optionright"@, "command"@, 0);
        lemma_not_ends_with("optionright"@, "command"@, 0);
        lemma_not_starts_with("optionright"@, "meta"@, 0);
        lemma_not_ends_with("optionright"@, "meta"@, 0);
        lemma_not_starts_with("optionright"@, "alt"@, 0);
        lemma_not_ends_with("optionright"@, "alt"@, 0);
        lemma_not_ends_with("optionright"@, "option"@, 0);
        lemma_not_starts_with("optionright"@, "fn"@, 0);
        lemma_not_ends_with("optionright"@, "fn"@, 0);
        lemma_not_starts_with("optionright"@, "function"@, 0);
        lemma_not_ends_with("optionright"@, "function"@, 0);
        lemma_not_starts_with("optionright"@, "globe"@, 0);
        lemma_not_ends_with("optionright"@, "globe"@, 0);
    }
    assert(mask_words_fit("rightalt"@, DEV_R_ALT)) by {
        reveal_strlit("rightalt"); reveal_strlit("r"); reveal_strlit("right"); reveal_strlit("gr"); reveal_strlit("l"); reveal_strlit("left"); reveal_strlit("ctrl"); reveal_strlit("control"); reveal_strlit("shift"); reveal_strlit("cmd"); reveal_strlit("command"); reveal_strlit("meta"); reveal_strlit("alt"); reveal_strlit("option"); reveal_strlit("fn"); reveal_strlit("function"); reveal_strlit("globe");
        lemma_not_ends_with("rightalt"@, "r"@, 0);
        lemma_not_ends_with("rightalt"@, "right"@, 0);
        lemma_not_starts_with("rightalt"@, "gr"@, 0);
        lemma_not_ends_with("rightalt"@, "gr"@, 0);
        lemma_not_starts_with("rightalt"@, "l"@, 0);
        lemma_not_ends_with("rightalt"@, "l"@, 0);
        lemma_not_starts_with("rightalt"@, "left"@, 0);
        lemma_not_ends_with("rightalt"@, "left"@, 0);
        lemma_not_starts_with("rightalt"@, "ctrl"@, 0);
        lemma_not_ends_with("rightalt"@, "ctrl"@, 0);
        lemma_not_starts_with("rightalt"@, "control"@, 0);
        lemma_not_ends_with("rightalt"@, "control"@, 0);
        lemma_not_starts_with("rightalt"@, "shift"@, 0);
        lemma_not_ends_with("rightalt"@, "shift"@, 0);
        lemma_not_starts_with("rightalt"@, "cmd"@, 0);
        lemma_not_ends_with("rightalt"@, "cmd"@, 0);
        lemma_not_starts_with("rightalt"@, "command"@, 0);
        lemma_not_ends_with("rightalt"@, "command"@, 0);
        lemma_not_starts_with("rightalt"@, "meta"@, 0);
        lemma_not_ends_with("rightalt"@, "meta"@, 0);
        lemma_not_starts_with("rightalt"@, "alt"@, 0);
        lemma_not_starts_with("rightalt"@, "option"@, 0);
        lemma_not_ends_with("rightalt"@, "option"@, 0);
        lemma_not_starts_with("rightalt"@, "fn"@, 0);
        lemma_not_ends_with("rightalt"@, "fn"@, 0);
        lemma_not_starts_with("rightalt"@, "function"@, 0);
        lemma_not_ends_with("rightalt"@, "function"@, 0);
        lemma_not_starts_with("rightalt"@, "globe"@, 0);
        lemma_not_ends_with("rightalt"@, "globe"@, 0);
    }
    assert(mask_words_fit("ralt"@, DEV_R_ALT)) by {
        reveal_strlit("ralt"); reveal_strlit("r"); reveal_strlit("right"); reveal_strlit("gr"); reveal_strlit("l"); reveal_strlit("left"); reveal_strlit("ctrl"); reveal_strlit("control"); reveal_strlit("shift"); reveal_strlit("cmd"); reveal_strlit("command"); reveal_strlit("meta"); reveal_strlit("alt"); reveal_strlit("option"); reveal_strlit("fn"); reveal_strlit("function"); reveal_strlit("globe");
        lemma_not_ends_with("ralt"@, "r"@, 0);
        lemma_not_starts_with("ralt"@, "gr"@, 0);
        lemma_not_ends_with("ralt"@, "gr"@, 0);
        lemma_not_starts_with("ralt"@, "l"@, 0);
        lemma_not_ends_with("ralt"@, "l"@, 0);
        lemma_not_starts_with("ralt"@, "left"@, 0);
        lemma_not_ends_with("ralt"@, "left"@, 0);
        lemma_not_starts_with("ralt"@, "ctrl"@, 0);
        lemma_not_ends_with("ralt"@, "ctrl"@, 0);
        lemma_not_starts_with("ralt"@, "cmd"@, 0);
        lemma_not_ends_with("ralt"@, "cmd"@, 0);
        lemma_not_starts_with("ralt"@, "meta"@, 0);
        lemma_not_ends_with("ralt"@, "meta"@, 0);
        lemma_not_starts_with("ralt"@, "alt"@, 0);
        lemma_not_starts_with("ralt"@, "fn"@, 0);
        lemma_not_ends_with("ralt"@, "fn"@, 0);
    }
    assert(mask_words_fit("altgr"@, DEV_R_ALT)) by {
        reveal_strlit("altgr"); reveal_strlit("r"); reveal_strlit("right"); reveal_strlit("gr"); reveal_strlit("l"); reveal_strlit("left"); reveal_strlit("ctrl"); reveal_strlit("control"); reveal_strlit("shift"); reveal_strlit("cmd"); reveal_strlit("command"); reveal_strlit("meta"); reveal_strlit("alt"); reveal_strlit("option"); reveal_strlit("fn"); reveal_strlit("function"); reveal_strlit("globe");
        lemma_not_starts_with("altgr"@, "r"@, 0);
        lemma_not_starts_with("altgr"@, "right"@, 0);
        lemma_not_ends_with("altgr"@, "right"@, 0);
        lemma_not_starts_with("altgr"@, "gr"@, 0);
        lemma_not_starts_with("altgr"@, "l"@, 0);
        lemma_not_ends_with("altgr"@, "l"@, 0);
        lemma_not_starts_with("altgr"@, "left"@, 0);
        lemma_not_ends_with("altgr"@, "left"@, 1);
        lemma_not_starts_with("altgr"@, "ctrl"@, 0);
        lemma_not_ends_with("altgr"@, "ctrl"@, 0);
        lemma_not_starts_with("altgr"@, "shift"@, 0);
        lemma_not_ends_with("altgr"@, "shift"@, 0);
        lemma_not_starts_with("altgr"@, "cmd"@, 0);
        lemma_not_ends_with("altgr"@, "cmd"@, 0);
        lemma_not_starts_with("altgr"@, "meta"@, 0);
        lemma_not_ends_with("altgr"@, "meta"@, 0);
        lemma_not_ends_with("altgr"@, "alt"@, 0);
        lemma_not_starts_with("altgr"@, "fn"@, 0);
        lemma_not_ends_with("altgr"@, "fn"@, 0);
        lemma_not_starts_with("altgr"@, "globe"@, 0);
        lemma_not_ends_with("altgr"@, "globe"@, 0);
    }
    assert(mask_words_fit("leftoption"@, DEV_L_ALT)) by {
        reveal_strlit("leftoption"); reveal_strlit("r"); reveal_strlit("right"); reveal_strlit("gr"); reveal_strlit("l"); reveal_strlit("left"); reveal_strlit("ctrl"); reveal_strlit("control"); reveal_strlit("shift"); reveal_strlit("cmd"); reveal_strlit("command"); reveal_strlit("meta"); reveal_strlit("alt"); reveal_strlit("option"); reveal_strlit("fn"); reveal_strlit("function"); reveal_strlit("globe");
        lemma_not_starts_with("leftoption"@, "r"@, 0);
        lemma_not_ends_with("leftoption"@, "r"@, 0);
        lemma_not_starts_with("leftoption"@, "right"@, 0);
        lemma_not_ends_with("leftoption"@, "right"@, 0);
        lemma_not_starts_with("leftoption"@, "gr"@, 0);
        lemma_not_ends_with("leftoption"@, "gr"@, 0);
        lemma_not_ends_with("leftoption"@, "l"@, 0);
        lemma_not_ends_with("leftoption"@, "left"@, 0);
        lemma_not_starts_with("leftoption"@, "ctrl"@, 0);
        lemma_not_ends_with("leftoption"@, "ctrl"@, 0);
        lemma_not_starts_with("leftoption"@, "control"@, 0);
        lemma_not_ends_with("leftoption"@, "control"@, 0);
        lemma_not_starts_with("leftoption"@, "shift"@, 0);
        lemma_not_ends_with("leftoption"@, "shift"@, 0);
        lemma_not_starts_with("leftoption"@, "cmd"@, 0);
        lemma_not_ends_with("leftoption"@, "cmd"@, 0);
        lemma_not_starts_with("leftoption"@, "command"@, 0);
        lemma_not_ends_with("leftoption"@, "command"@, 0);
        lemma_not_starts_with("leftoption"@, "meta"@, 0);
        lemma_not_ends_with("leftoption"@, "meta"@, 0);
        lemma_not_starts_with("leftoption"@, "alt"@, 0);
        lemma_not_ends_with("leftoption"@, "alt"@, 0);
        lemma_not_starts_with("leftoption"@, "option"@, 0);
        lemma_not_starts_with("leftoption"@, "fn"@, 0);
        lemma_not_ends_with("leftoption"@, "fn"@, 0);
        lemma_not_starts_with("leftoption"@, "function"@, 0);
        lemma_not_ends_with("leftoption"@, "function"@, 1);
        lemma_not_starts_with("leftoption"@, "globe"@, 0);
        lemma_not_ends_with("leftoption"@, "globe"@, 0);
    }
    assert(mask_words_fit("loption"@, DEV_L_ALT)) by {
        reveal_strlit("loption"); reveal_strlit("r"); reveal_strlit("right"); reveal_strlit("gr"); reveal_strlit("l"); reveal_strlit("left"); reveal_strlit("ctrl"); reveal_strlit("control"); reveal_strlit("shift"); reveal_strlit("cmd"); reveal_strlit("command"); reveal_strlit("meta"); reveal_strlit("alt"); reveal_strlit("option"); reveal_strlit("fn"); reveal_strlit("function"); reveal_strlit("globe");
        lemma_not_starts_with("loption"@, "r"@, 0);
        lemma_not_ends_with("loption"@, "r"@, 0);
        lemma_not_starts_with("loption"@, "right"@, 0);
        lemma_not_ends_with("loption"@, "right"@, 0);
        lemma_not_starts_with("loption"@, "gr"@, 0);
        lemma_not_ends_with("loption"@, "gr"@, 0);
        lemma_not_ends_with("loption"@, "l"@, 0);
        lemma_not_starts_with("loption"@, "left"@, 1);
        lemma_not_ends_with("loption"@, "left"@, 0);
        lemma_not_starts_with("loption"@, "ctrl"@, 0);
        lemma_not_ends_with("loption"@, "ctrl"@, 0);
        lemma_not_starts_with("loption"@, "control"@, 0);
        lemma_not_ends_with("loption"@, "control"@, 0);
        lemma_not_starts_with("loption"@, "shift"@, 0);
        lemma_not_ends_with("loption"@, "shift"@, 0);
        lemma_not_starts_with("loption"@, "cmd"@, 0);
        lemma_not_ends_with("loption"@, "cmd"@, 0);
        lemma_not_starts_with("loption"@, "command"@, 0);
        lemma_not_ends_with("loption"@, "command"@, 0);
        lemma_not_starts_with("loption"@, "meta"@, 0);
        lemma_not_ends_with("loption"@, "meta"@, 0);
        lemma_not_starts_with("loption"@, "alt"@, 0);
        lemma_not_ends_with("loption"@, "alt"@, 0);
        lemma_not_starts_with("loption"@, "option"@, 0);
        lemma_not_starts_with("loption"@, "fn"@, 0);
        lemma_not_ends_with("loption"@, "fn"@, 0);
        lemma_not_starts_with("loption"@, "globe"@, 0);
        lemma_not_ends_with("loption"@, "globe"@, 0);
    }
    assert(mask_words_fit("optionleft"@, DEV_L_ALT)) by {
        reveal_strlit("optionleft"); reveal_strlit("r"); reveal_strlit("right"); reveal_strlit("gr"); reveal_strlit("l"); reveal_strlit("left"); reveal_strlit("ctrl"); reveal_strlit("control"); reveal_strlit("shift"); reveal_strlit("cmd"); reveal_strlit("command"); reveal_strlit("meta"); reveal_strlit("alt"); reveal_strlit("option"); reveal_strlit("fn"); reveal_strlit("function"); reveal_strlit("globe");
        lemma_not_starts_with("optionleft"@, "r"@, 0);
        lemma_not_ends_with("optionleft"@, "r"@, 0);
        lemma_not_starts_with("optionleft"@, "right"@, 0);
        lemma_not_ends_with("optionleft"@, "right"@, 0);
        lemma_not_starts_with("optionleft"@, "gr"@, 0);
        lemma_not_ends_with("optionleft"@, "gr"@, 0);
        lemma_not_starts_with("optionleft"@, "l"@, 0);
        lemma_not_ends_with("optionleft"@, "l"@, 0);
        lemma_not_starts_with("optionleft"@, "left"@, 0);
        lemma_not_starts_with("optionleft"@, "ctrl"@, 0);
        lemma_not_ends_with("optionleft"@, "ctrl"@, 0);
        lemma_not_starts_with("optionleft"@, "control"@, 0);
        lemma_not_ends_with("optionleft"@, "control"@, 0);
        lemma_not_starts_with("optionleft"@, "shift"@, 0);
        lemma_not_ends_with("optionleft"@, "shift"@, 0);
        lemma_not_starts_with("optionleft"@, "cmd"@, 0);
        lemma_not_ends_with("optionleft"@, "cmd"@, 0);
        lemma_not_starts_with("optionleft"@, "command"@, 0);
        lemma_not_ends_with("optionleft"@, "command"@, 0);
        lemma_not_starts_with("optionleft"@, "meta"@, 0);
        lemma_not_ends_with("optionleft"@, "meta"@, 0);
        lemma_not_starts_with("optionleft"@, "alt"@, 0);
        lemma_not_ends_with("optionleft"@, "alt"@, 0);
        lemma_not_ends_with("optionleft"@, "option"@, 1);
        lemma_not_starts_with("optionleft"@, "fn"@, 0);
        lemma_not_ends_with("optionleft"@, "fn"@, 1);
        lemma_not_starts_with("optionleft"@, "function"@, 0);
        lemma_not_ends_with("optionleft"@, "function"@, 0);
        lemma_not_starts_with("optionleft"@, "globe"@, 0);
        lemma_not_ends_with("optionleft"@, "globe"@, 0);
    }
    assert(mask_words_fit("leftalt"@, DEV_L_ALT)) by {
        reveal_strlit("leftalt"); reveal_strlit("r"); reveal_strlit("right"); reveal_strlit("gr"); reveal_strlit("l"); reveal_strlit("left"); reveal_strlit("ctrl"); reveal_strlit("control"); reveal_strlit("shift"); reveal_strlit("cmd"); reveal_strlit("command"); reveal_strlit("meta"); reveal_strlit("alt"); reveal_strlit("option"); reveal_strlit("fn"); reveal_strlit("function"); reveal_strlit("globe");
        lemma_not_starts_with("leftalt"@, "r"@, 0);
        lemma_not_ends_with("leftalt"@, "r"@, 0);
        lemma_not_starts_with("leftalt"@, "right"@, 0);
        lemma_not_ends_with("leftalt"@, "right"@, 0);
        lemma_not_starts_with("leftalt"@, "gr"@, 0);
        lemma_not_ends_with("leftalt"@, "gr"@, 0);
        lemma_not_ends_with("leftalt"@, "l"@, 0);
        lemma_not_ends_with("leftalt"@, "left"@, 0);
        lemma_not_starts_with("leftalt"@, "ctrl"@, 0);
        lemma_not_ends_with("leftalt"@, "ctrl"@, 0);
        lemma_not_starts_with("leftalt"@, "control"@, 0);
        lemma_not_ends_with("leftalt"@, "control"@, 0);
        lemma_not_starts_with("leftalt"@, "shift"@, 0);
        lemma_not_ends_with("leftalt"@, "shift"@, 0);
        lemma_not_starts_with("leftalt"@, "cmd"@, 0);
        lemma_not_ends_with("leftalt"@, "cmd"@, 0);
        lemma_not_starts_with("leftalt"@, "command"@, 0);
        lemma_not_ends_with("leftalt"@, "command"@, 0);
        lemma_not_starts_with("leftalt"@, "meta"@, 0);
        lemma_not_ends_with("leftalt"@, "meta"@, 0);
        lemma_not_starts_with("leftalt"@, "alt"@, 0);
        lemma_not_starts_with("leftalt"@, "option"@, 0);
        lemma_not_ends_with("leftalt"@, "option"@, 0);
        lemma_not_starts_with("leftalt"@, "fn"@, 0);
        lemma_not_ends_with("leftalt"@, "fn"@, 0);
        lemma_not_starts_with("leftalt"@, "globe"@, 0);
        lemma_not_ends_with("leftalt"@, "globe"@, 0);
    }
    assert(mask_words_fit("lalt"@, DEV_L_ALT)) by {
        reveal_strlit("lalt"); reveal_strlit("r"); reveal_strlit("right"); reveal_strlit("gr"); reveal_strlit("l"); reveal_strlit("left"); reveal_strlit("ctrl"); reveal_strlit("control"); reveal_strlit("shift"); reveal_strlit("cmd"); reveal_strlit("command"); reveal_strlit("meta"); reveal_strlit("alt"); reveal_strlit("option"); reveal_strlit("fn"); reveal_strlit("function"); reveal_strlit("globe");
        lemma_not_starts_with("lalt"@, "r"@, 0);
        lemma_not_ends_with("lalt"@, "r"@, 0);
        lemma_not_starts_with("lalt"@, "gr"@, 0);
        lemma_not_ends_with("lalt"@, "gr"@, 0);
        lemma_not_ends_with("lalt"@, "l"@, 0);
        lemma_not_starts_with("lalt"@, "left"@, 1);
        lemma_not_ends_with("lalt"@, "left"@, 1);
        lemma_not_starts_with("lalt"@, "ctrl"@, 0);
        lemma_not_ends_with("lalt"@, "ctrl"@, 0);
        lemma_not_starts_with("lalt"@, "cmd"@, 0);
        lemma_not_ends_with("lalt"@, "cmd"@, 0);
        lemma_not_starts_with("lalt"@, "meta"@, 0);
        lemma_not_ends_with("lalt"@, "meta"@, 0);
        lemma_not_starts_with("lalt"@, "alt"@, 0);
        lemma_not_starts_with("lalt"@, "fn"@, 0);
        lemma_not_ends_with("lalt"@, "fn"@, 0);
    }
    assert(mask_words_fit("rightcommand"@, DEV_R_CMD)) by {
        reveal_strlit("rightcommand"); reveal_strlit("r"); reveal_strlit("right"); reveal_strlit("gr"); reveal_strlit("l"); reveal_strlit("left"); reveal_strlit("ctrl"); reveal_strlit("control"); reveal_strlit("shift"); reveal_strlit("cmd"); reveal_strlit("command"); reveal_strlit("meta"); reveal_strlit("alt"); reveal_strlit("option"); reveal_strlit("fn"); reveal_strlit("function"); reveal_strlit("globe");
        lemma_not_ends_with("rightcommand"@, "r"@, 0);
        lemma_not_ends_with("rightcommand"@, "right"@, 0);
        lemma_not_starts_with("rightcommand"@, "gr"@, 0);
        lemma_not_ends_with("rightcommand"@, "gr"@, 0);
        lemma_not_starts_with("rightcommand"@, "l"@, 0);
        lemma_not_ends_with("rightcommand"@, "l"@, 0);
        lemma_not_starts_with("rightcommand"@, "left"@, 0);
        lemma_not_ends_with("rightcommand"@, "left"@, 0);
        lemma_not_starts_with("rightcommand"@, "ctrl"@, 0);
        lemma_not_ends_with("rightcommand"@, "ctrl"@, 0);
        lemma_not_starts_with("rightcommand"@, "control"@, 0);
        lemma_not_ends_with("rightcommand"@, "control"@, 2);
        lemma_not_starts_with("rightcommand"@, "shift"@, 0);
        lemma_not_ends_with("rightcommand"@, "shift"@, 0);
        lemma_not_starts_with("rightcommand"@, "cmd"@, 0);
        lemma_not_ends_with("rightcommand"@, "cmd"@, 0);
        lemma_not_starts_with("rightcommand"@, "command"@, 0);
        lemma_not_starts_with("rightcommand"@, "meta"@, 0);
        lemma_not_ends_with("rightcommand"@, "meta"@, 1);
        lemma_not_starts_with("rightcommand"@, "alt"@, 0);
        lemma_not_ends_with("rightcommand"@, "alt"@, 1);
        lemma_not_starts_with("rightcommand"@, "option"@, 0);
        lemma_not_ends_with("rightcommand"@, "option"@, 1);
        lemma_not_starts_with("rightcommand"@, "fn"@, 0);
        lemma_not_ends_with("rightcommand"@, "fn"@, 0);
        lemma_not_starts_with("rightcommand"@, "function"@, 0);
        lemma_not_ends_with("rightcommand"@, "function"@, 0);
        lemma_not_starts_with("rightcommand"@, "globe"@, 0);
        lemma_not_ends_with("rightcommand"@, "globe"@, 0);
    }
    assert(mask_words_fit("rcommand"@, DEV_R_CMD)) by {
        reveal_strlit("rcommand"); reveal_strlit("r"); reveal_strlit("right"); reveal_strlit("gr"); reveal_strlit("l"); reveal_strlit("left"); reveal_strlit("ctrl"); reveal_strlit("control"); reveal_strlit("shift"); reveal_strlit("cmd"); reveal_strlit("command"); reveal_strlit("meta"); reveal_strlit("alt"); reveal_strlit("option"); reveal_strlit("fn"); reveal_strlit("function"); reveal_strlit("globe");
        lemma_not_ends_with("rcommand"@, "r"@, 0);
        lemma_not_starts_with("rcommand"@, "right"@, 1);
        lemma_not_ends_with("rcommand"@, "right"@, 0);
        lemma_not_starts_with("rcommand"@, "gr"@, 0);
        lemma_not_ends_with("rcommand"@, "gr"@, 0);
        lemma_not_starts_with("rcommand"@, "l"@, 0);
        lemma_not_ends_with("rcommand"@, "l"@, 0);
        lemma_not_starts_with("rcommand"@, "left"@, 0);
        lemma_not_ends_with("rcommand"@, "left"@, 0);
        lemma_not_starts_with("rcommand"@, "ctrl"@, 0);
        lemma_not_ends_with("rcommand"@, "ctrl"@, 0);
        lemma_not_starts_with("rcommand"@, "control"@, 0);
        lemma_not_ends_with("rcommand"@, "control"@, 2);
        lemma_not_starts_with("rcommand"@, "shift"@, 0);
        lemma_not_ends_with("rcommand"@, "shift"@, 0);
        lemma_not_starts_with("rcommand"@, "cmd"@, 0);
        lemma_not_ends_with("rcommand"@, "cmd"@, 0);
        lemma_not_starts_with("rcommand"@, "command"@, 0);
        lemma_not_starts_with("rcommand"@, "meta"@, 0);
        lemma_not_ends_with("rcommand"@, "meta"@, 1);
        lemma_not_starts_with("rcommand"@, "alt"@, 0);
        lemma_not_ends_with("rcommand"@, "alt"@, 1);
        lemma_not_starts_with("rcommand"@, "option"@, 0);
        lemma_not_ends_with("rcommand"@, "option"@, 1);
        lemma_not_starts_with("rcommand"@, "fn"@, 0);
        lemma_not_ends_with("rcommand"@, "fn"@, 0);
        lemma_not_starts_with("rcommand"@, "function"@, 0);
        lemma_not_ends_with("rcommand"@, "function"@, 0);
        lemma_not_starts_with("rcommand"@, "globe"@, 0);
        lemma_not_ends_with("rcommand"@, "globe"@, 0);
    }
    assert(mask_words_fit("rightcmd"@, DEV_R_CMD)) by {
        reveal_strlit("rightcmd"); reveal_strlit("r"); reveal_strlit("right"); reveal_strlit("gr"); reveal_strlit("l"); reveal_strlit("left"); reveal_strlit("ctrl"); reveal_strlit("control"); reveal_strlit("shift"); reveal_strlit("cmd"); reveal_strlit("command"); reveal_strlit("meta"); reveal_strlit("alt"); reveal_strlit("option"); reveal_strlit("fn"); reveal_strlit("function"); reveal_strlit("globe");
        lemma_not_ends_with("rightcmd"@, "r"@, 0);
        lemma_not_ends_with("rightcmd"@, "right"@, 0);
        lemma_not_starts_with("rightcmd"@, "gr"@, 0);
        lemma_not_ends_with("rightcmd"@, "gr"@, 0);
        lemma_not_starts_with("rightcmd"@, "l"@, 0);
        lemma_not_ends_with("rightcmd"@, "l"@, 0);
        lemma_not_starts_with("rightcmd"@, "left"@, 0);
        lemma_not_ends_with("rightcmd"@, "left"@, 0);
        lemma_not_starts_with("rightcmd"@, "ctrl"@, 0);
        lemma_not_ends_with("rightcmd"@, "ctrl"@, 0);
        lemma_not_starts_with("rightcmd"@, "control"@, 0);
        lemma_not_ends_with("rightcmd"@, "control"@, 0);
        lemma_not_starts_with("rightcmd"@, "shift"@, 0);
        lemma_not_ends_with("rightcmd"@, "shift"@, 0);
        lemma_not_starts_with("rightcmd"@, "cmd"@, 0);
        lemma_not_starts_with("rightcmd"@, "command"@, 0);
        lemma_not_ends_with("rightcmd"@, "command"@, 0);
        lemma_not_starts_with("rightcmd"@, "meta"@, 0);
        lemma_not_ends_with("rightcmd"@, "meta"@, 0);
        lemma_not_starts_with("rightcmd"@, "alt"@, 0);
        lemma_not_ends_with("rightcmd"@, "alt"@, 0);
        lemma_not_starts_with("rightcmd"@, "option"@, 0);
        lemma_not_ends_with("rightcmd"@, "option"@, 0);
        lemma_not_starts_with("rightcmd"@, "fn"@, 0);
        lemma_not_ends_with("rightcmd"@, "fn"@, 0);
        lemma_not_starts_with("rightcmd"@, "function"@, 0);
        lemma_not_ends_with("rightcmd"@, "function"@, 0);
        lemma_not_starts_with("rightcmd"@, "globe"@, 0);
        lemma_not_ends_with("rightcmd"@, "globe"@, 0);
    }
    assert(mask_words_fit("rcmd"@, DEV_R_CMD)) by {
        reveal_strlit("rcmd"); reveal_strlit("r"); reveal_strlit("right"); reveal_strlit("gr"); reveal_strlit("l"); reveal_strlit("left"); reveal_strlit("ctrl"); reveal_strlit("control"); reveal_strlit("shift"); reveal_strlit("cmd"); reveal_strlit("command"); reveal_strlit("meta"); reveal_strlit("alt"); reveal_strlit("option"); reveal_strlit("fn"); reveal_strlit("function"); reveal_strlit("globe");
        lemma_not_ends_with("rcmd"@, "r"@, 0);
        lemma_not_starts_with("rcmd"@, "gr"@, 0);
        lemma_not_ends_with("rcmd"@, "gr"@, 0);
        lemma_not_starts_with("rcmd"@, "l"@, 0);
        lemma_not_ends_with("rcmd"@, "l"@, 0);
        lemma_not_starts_with("rcmd"@, "left"@, 0);
        lemma_not_ends_with("rcmd"@, "left"@, 0);
        lemma_not_starts_with("rcmd"@, "ctrl"@, 0);
        lemma_not_ends_with("rcmd"@, "ctrl"@, 0);
        lemma_not_starts_with("rcmd"@, "cmd"@, 0);
        lemma_not_starts_with("rcmd"@, "meta"@, 0);
        lemma_not_ends_with("rcmd"@, "meta"@, 0);
        lemma_not_starts_with("rcmd"@, "alt"@, 0);
        lemma_not_ends_with("rcmd"@, "alt"@, 0);
        lemma_not_starts_with("rcmd"@, "fn"@, 0);
        lemma_not_ends_with("rcmd"@, "fn"@, 0);
    }
    assert(mask_words_fit("commandright"@, DEV_R_CMD)) by {
        reveal_strlit("commandright"); reveal_strlit("r"); reveal_strlit("right"); reveal_strlit("gr"); reveal_strlit("l"); reveal_strlit("left"); reveal_strlit("ctrl"); reveal_strlit("control"); reveal_strlit("shift"); reveal_strlit("cmd"); reveal_strlit("command"); reveal_strlit("meta"); reveal_strlit("alt"); reveal_strlit("option"); reveal_strlit("fn"); reveal_strlit("function"); reveal_strlit("globe");
        lemma_not_starts_with("commandright"@, "r"@, 0);
        lemma_not_ends_with("commandright"@, "r"@, 0);
        lemma_not_starts_with("commandright"@, "right"@, 0);
        lemma_not_starts_with("commandright"@, "gr"@, 0);
        lemma_not_ends_with("commandright"@, "gr"@, 0);
        lemma_not_starts_with("commandright"@, "l"@, 0);
        lemma_not_ends_with("commandright"@, "l"@, 0);
        lemma_not_starts_with("commandright"@, "left"@, 0);
        lemma_not_ends_with("commandright"@, "left"@, 0);
        lemma_not_starts_with("commandright"@, "ctrl"@, 1);
        lemma_not_ends_with("commandright"@, "ctrl"@, 0);
        lemma_not_starts_with("commandright"@, "control"@, 2);
        lemma_not_ends_with("commandright"@, "control"@, 0);
        lemma_not_starts_with("commandright"@, "shift"@, 0);
        lemma_not_ends_with("commandright"@, "shift"@, 0);
        lemma_not_starts_with("commandright"@, "cmd"@, 1);
        lemma_not_ends_with("commandright"@, "cmd"@, 0);
        lemma_not_ends_with("commandright"@, "command"@, 0);
        lemma_not_starts_with("commandright"@, "meta"@, 0);
        lemma_not_ends_with("commandright"@, "meta"@, 0);
        lemma_not_starts_with("commandright"@, "alt"@, 0);
        lemma_not_ends_with("commandright"@, "alt"@, 0);
        lemma_not_starts_with("commandright"@, "option"@, 0);
        lemma_not_ends_with("commandright"@, "option"@, 0);
        lemma_not_starts_with("commandright"@, "fn"@, 0);
        lemma_not_ends_with("commandright"@, "fn"@, 0);
        lemma_not_starts_with("commandright"@, "function"@, 0);
        lemma_not_ends_with("commandright"@, "function"@, 0);
        lemma_not_starts_with("commandright"@, "globe"@, 0);
        lemma_not_ends_with("commandright"@, "globe"@, 0);
    }
    assert(mask_words_fit("rightmeta"@, DEV_R_CMD)) by {
        reveal_strlit("rightmeta"); reveal_strlit("r"); reveal_strlit("right"); reveal_strlit("gr"); reveal_strlit("l"); reveal_strlit("left"); reveal_strlit("ctrl"); reveal_strlit("control"); reveal_strlit("shift"); reveal_strlit("cmd"); reveal_strlit("command"); reveal_strlit("meta"); reveal_strlit("alt"); reveal_strlit("option"); reveal_strlit("fn"); reveal_strlit("function"); reveal_strlit("globe");
        lemma_not_ends_with("rightmeta"@, "r"@, 0);
        lemma_not_ends_with("rightmeta"@, "right"@, 0);
        lemma_not_starts_with("rightmeta"@, "gr"@, 0);
        lemma_not_ends_with("rightmeta"@, "gr"@, 0);
        lemma_not_starts_with("rightmeta"@, "l"@, 0);
        lemma_not_ends_with("rightmeta"@, "l"@, 0);
        lemma_not_starts_with("rightmeta"@, "left"@, 0);
        lemma_not_ends_with("rightmeta"@, "left"@, 0);
        lemma_not_starts_with("rightmeta"@, "ctrl"@, 0);
        lemma_not_ends_with("rightmeta"@, "ctrl"@, 0);
        lemma_not_starts_with("rightmeta"@, "control"@, 0);
        lemma_not_ends_with("rightmeta"@, "control"@, 0);
        lemma_not_starts_with("rightmeta"@, "shift"@, 0);
        lemma_not_ends_with("rightmeta"@, "shift"@, 0);
        lemma_not_starts_with("rightmeta"@, "cmd"@, 0);
        lemma_not_ends_with("rightmeta"@, "cmd"@, 0);
        lemma_not_starts_with("rightmeta"@, "command"@, 0);
        lemma_not_ends_with("rightmeta"@, "command"@, 0);
        lemma_not_starts_with("rightmeta"@, "meta"@, 0);
        lemma_not_starts_with("rightmeta"@, "alt"@, 0);
        lemma_not_ends_with("rightmeta"@, "alt"@, 0);
        lemma_not_starts_with("rightmeta"@, "option"@, 0);
        lemma_not_ends_with("rightmeta"@, "option"@, 0);
        lemma_not_starts_with("rightmeta"@, "fn"@, 0);
        lemma_not_ends_with("rightmeta"@, "fn"@, 0);
        lemma_not_starts_with("rightmeta"@, "function"@, 0);
        lemma_not_ends_with("rightmeta"@, "function"@, 0);
        lemma_not_starts_with("rightmeta"@, "globe"@, 0);
        lemma_not_ends_with("rightmeta"@, "globe"@, 0);
    }
    assert(mask_words_fit("rmeta"@, DEV_R_CMD)) by {
        reveal_strlit("rmeta"); reveal_strlit("r"); reveal_strlit("right"); reveal_strlit("gr"); reveal_strlit("l"); reveal_strlit("left"); reveal_strlit("ctrl"); reveal_strlit("control"); reveal_strlit("shift"); reveal_strlit("cmd"); reveal_strlit("command"); reveal_strlit("meta"); reveal_strlit("alt"); reveal_strlit("option"); reveal_strlit("fn"); reveal_strlit("function"); reveal_strlit("globe");
        lemma_not_ends_with("rmeta"@, "r"@, 0);
        lemma_not_starts_with("rmeta"@, "right"@, 1);
        lemma_not_ends_with("rmeta"@, "right"@, 1);
        lemma_not_starts_with("rmeta"@, "gr"@, 0);
        lemma_not_ends_with("rmeta"@, "gr"@, 0);
        lemma_not_starts_with("rmeta"@, "l"@, 0);
        lemma_not_ends_with("rmeta"@, "l"@, 0);
        lemma_not_starts_with("rmeta"@, "left"@, 0);
        lemma_not_ends_with("rmeta"@, "left"@, 0);
        lemma_not_starts_with("rmeta"@, "ctrl"@, 0);
        lemma_not_ends_with("rmeta"@, "ctrl"@, 0);
        lemma_not_starts_with("rmeta"@, "shift"@, 0);
        lemma_not_ends_with("rmeta"@, "shift"@, 0);
        lemma_not_starts_with("rmeta"@, "cmd"@, 0);
        lemma_not_ends_with("rmeta"@, "cmd"@, 0);
        lemma_not_starts_with("rmeta"@, "meta"@, 0);
        lemma_not_starts_with("rmeta"@, "alt"@, 0);
        lemma_not_ends_with("rmeta"@, "alt"@, 0);
        lemma_not_starts_with("rmeta"@, "fn"@, 0);
        lemma_not_ends_with("rmeta"@, "fn"@, 0);
        lemma_not_starts_with("rmeta"@, "globe"@, 0);
        lemma_not_ends_with("rmeta"@, "globe"@, 0);
    }
    assert(mask_words_fit("leftcommand"@, DEV_L_CMD)) by {
        reveal_strlit("leftcommand"); reveal_strlit("r"); reveal_strlit("right"); reveal_strlit("gr"); reveal_strlit("l"); reveal_strlit("left"); reveal_strlit("ctrl"); reveal_strlit("control"); reveal_strlit("shift"); reveal_strlit("cmd"); reveal_strlit("command"); reveal_strlit("meta"); reveal_strlit("alt"); reveal_strlit("option"); reveal_strlit("fn"); reveal_strlit("function"); reveal_strlit("globe");
        lemma_not_starts_with("leftcommand"@, "r"@, 0);
        lemma_not_ends_with("leftcommand"@, "r"@, 0);
        lemma_not_starts_with("leftcommand"@, "right"@, 0);
        lemma_not_ends_with("leftcommand"@, "right"@, 0);
        lemma_not_starts_with("leftcommand"@, "gr"@, 0);
        lemma_not_ends_with("leftcommand"@, "gr"@, 0);
        lemma_not_ends_with("leftcommand"@, "l"@, 0);
        lemma_not_ends_with("leftcommand"@, "left"@, 0);
        lemma_not_starts_with("leftcommand"@, "ctrl"@, 0);
        lemma_not_ends_with("leftcommand"@, "ctrl"@, 0);
        lemma_not_starts_with("leftcommand"@, "control"@, 0);
        lemma_not_ends_with("leftcommand"@, "control"@, 2);
        lemma_not_starts_with("leftcommand"@, "shift"@, 0);
        lemma_not_ends_with("leftcommand"@, "shift"@, 0);
        lemma_not_starts_with("leftcommand"@, "cmd"@, 0);
        lemma_not_ends_with("leftcommand"@, "cmd"@, 0);
        lemma_not_starts_with("leftcommand"@, "command"@, 0);
        lemma_not_starts_with("leftcommand"@, "meta"@, 0);
        lemma_not_ends_with("leftcommand"@, "meta"@, 1);
        lemma_not_starts_with("leftcommand"@, "alt"@, 0);
        lemma_not_ends_with("leftcommand"@, "alt"@, 1);
        lemma_not_starts_with("leftcommand"@, "option"@, 0);
        lemma_not_ends_with("leftcommand"@, "option"@, 1);
        lemma_not_starts_with("leftcommand"@, "fn"@, 0);
        lemma_not_ends_with("leftcommand"@, "fn"@, 0);
        lemma_not_starts_with("leftcommand"@, "function"@, 0);
        lemma_not_ends_with("leftcommand"@, "function"@, 0);
        lemma_not_starts_with("leftcommand"@, "globe"@, 0);
        lemma_not_ends_with("leftcommand"@, "globe"@, 0);
    }
    assert(mask_words_fit("lcommand"@, DEV_L_CMD)) by {
        reveal_strlit("lcommand"); reveal_strlit("r"); reveal_strlit("right"); reveal_strlit("gr"); reveal_strlit("l"); reveal_strlit("left"); reveal_strlit("ctrl"); reveal_strlit("control"); reveal_strlit("shift"); reveal_strlit("cmd"); reveal_strlit("command"); reveal_strlit("meta"); reveal_strlit("alt"); reveal_strlit("option"); reveal_strlit("fn"); reveal_strlit("function"); reveal_strlit("globe");
        lemma_not_starts_with("lcommand"@, "r"@, 0);
        lemma_not_ends_with("lcommand"@, "r"@, 0);
        lemma_not_starts_with("lcommand"@, "right"@, 0);
        lemma_not_ends_with("lcommand"@, "right"@, 0);
        lemma_not_starts_with("lcommand"@, "gr"@, 0);
        lemma_not_ends_with("lcommand"@, "gr"@, 0);
        lemma_not_ends_with("lcommand"@, "l"@, 0);
        lemma_not_starts_with("lcommand"@, "left"@, 1);
        lemma_not_ends_with("lcommand"@, "left"@, 0);
        lemma_not_starts_with("lcommand"@, "ctrl"@, 0);
        lemma_not_ends_with("lcommand"@, "ctrl"@, 0);
        lemma_not_starts_with("lcommand"@, "control"@, 0);
        lemma_not_ends_with("lcommand"@, "control"@, 2);
        lemma_not_starts_with("lcommand"@, "shift"@, 0);
        lemma_not_ends_with("lcommand"@, "shift"@, 0);
        lemma_not_starts_with("lcommand"@, "cmd"@, 0);
        lemma_not_ends_with("lcommand"@, "cmd"@, 0);
        lemma_not_starts_with("lcommand"@, "command"@, 0);
        lemma_not_starts_with("lcommand"@, "meta"@, 0);
        lemma_not_ends_with("lcommand"@, "meta"@, 1);
        lemma_not_starts_with("lcommand"@, "alt"@, 0);
        lemma_not_ends_with("lcommand"@, "alt"@, 1);
        lemma_not_starts_with("lcommand"@, "option"@, 0);
        lemma_not_ends_with("lcommand"@, "option"@, 1);
        lemma_not_starts_with("lcommand"@, "fn"@, 0);
        lemma_not_ends_with("lcommand"@, "fn"@, 0);
        lemma_not_starts_with("lcommand"@, "function"@, 0);
        lemma_not_ends_with("lcommand"@, "function"@, 0);
        lemma_not_starts_with("lcommand"@, "globe"@, 0);
        lemma_not_ends_with("lcommand"@, "globe"@, 0);
    }
    assert(mask_words_fit("leftcmd"@, DEV_L_CMD)) by {
        reveal_strlit("leftcmd"); reveal_strlit("r"); reveal_strlit("right"); reveal_strlit("gr"); reveal_strlit("l"); reveal_strlit("left"); reveal_strlit("ctrl"); reveal_strlit("control"); reveal_strlit("shift"); reveal_strlit("cmd"); reveal_strlit("command"); reveal_strlit("meta"); reveal_strlit("alt"); reveal_strlit("option"); reveal_strlit("fn"); reveal_strlit("function"); reveal_strlit("globe");
        lemma_not_starts_with("leftcmd"@, "r"@, 0);
        lemma_not_ends_with("leftcmd"@, "r"@, 0);
        lemma_not_starts_with("leftcmd"@, "right"@, 0);
        lemma_not_ends_with("leftcmd"@, "right"@, 0);
        lemma_not_starts_with("leftcmd"@, "gr"@, 0);
        lemma_not_ends_with("leftcmd"@, "gr"@, 0);
        lemma_not_ends_with("leftcmd"@, "l"@, 0);
        lemma_not_ends_with("leftcmd"@, "left"@, 0);
        lemma_not_starts_with("leftcmd"@, "ctrl"@, 0);
        lemma_not_ends_with("leftcmd"@, "ctrl"@, 0);
        lemma_not_starts_with("leftcmd"@, "control"@, 0);
        lemma_not_ends_with("leftcmd"@, "control"@, 0);
        lemma_not_starts_with("leftcmd"@, "shift"@, 0);
        lemma_not_ends_with("leftcmd"@, "shift"@, 0);
        lemma_not_starts_with("leftcmd"@, "cmd"@, 0);
        lemma_not_starts_with("leftcmd"@, "command"@, 0);
        lemma_not_ends_with("leftcmd"@, "command"@, 0);
        lemma_not_starts_with("leftcmd"@, "meta"@, 0);
        lemma_not_ends_with("leftcmd"@, "meta"@, 0);
        lemma_not_starts_with("leftcmd"@, "alt"@, 0);
        lemma_not_ends_with("leftcmd"@, "alt"@, 0);
        lemma_not_starts_with("leftcmd"@, "option"@, 0);
        lemma_not_ends_with("leftcmd"@, "option"@, 0);
        lemma_not_starts_with("leftcmd"@, "fn"@, 0);
        lemma_not_ends_with("leftcmd"@, "fn"@, 0);
        lemma_not_starts_with("leftcmd"@, "globe"@, 0);
        lemma_not_ends_with("leftcmd"@, "globe"@, 0);
    }
    assert(mask_words_fit("lcmd"@, DEV_L_CMD)) by {
        reveal_strlit("lcmd"); reveal_strlit("r"); reveal_strlit("right"); reveal_strlit("gr"); reveal_strlit("l"); reveal_strlit("left"); reveal_strlit("ctrl"); reveal_strlit("control"); reveal_strlit("shift"); reveal_strlit("cmd"); reveal_strlit("command"); reveal_strlit("meta"); reveal_strlit("alt"); reveal_strlit("option"); reveal_strlit("fn"); reveal_strlit("function"); reveal_strlit("globe");
        lemma_not_starts_with("lcmd"@, "r"@, 0);
        lemma_not_ends_with("lcmd"@, "r"@, 0);
        lemma_not_starts_with("lcmd"@, "gr"@, 0);
        lemma_not_ends_with("lcmd"@, "gr"@, 0);
        lemma_not_ends_with("lcmd"@, "l"@, 0);
        lemma_not_starts_with("lcmd"@, "left"@, 1);
        lemma_not_ends_with("lcmd"@, "left"@, 1);
        lemma_not_starts_with("lcmd"@, "ctrl"@, 0);
        lemma_not_ends_with("lcmd"@, "ctrl"@, 0);
        lemma_not_starts_with("lcmd"@, "cmd"@, 0);
        lemma_not_starts_with("lcmd"@, "meta"@, 0);
        lemma_not_ends_with("lcmd"@, "meta"@, 0);
        lemma_not_starts_with("lcmd"@, "alt"@, 0);
        lemma_not_ends_with("lcmd"@, "alt"@, 0);
        lemma_not_starts_with("lcmd"@, "fn"@, 0);
        lemma_not_ends_with("lcmd"@, "fn"@, 0);
    }
    assert(mask_words_fit("leftmeta"@, DEV_L_CMD)) by {
        reveal_strlit("leftmeta"); reveal_strlit("r"); reveal_strlit("right"); reveal_strlit("gr"); reveal_strlit("l"); reveal_strlit("left"); reveal_strlit("ctrl"); reveal_strlit("control"); reveal_strlit("shift"); reveal_strlit("cmd"); reveal_strlit("command"); reveal_strlit("meta"); reveal_strlit("alt"); reveal_strlit("option"); reveal_strlit("fn"); reveal_strlit("function"); reveal_strlit("globe");
        lemma_not_starts_with("leftmeta"@, "r"@, 0);
        lemma_not_ends_with("leftmeta"@, "r"@, 0);
        lemma_not_starts_with("leftmeta"@, "right"@, 0);
        lemma_not_ends_with("leftmeta"@, "right"@, 0);
        lemma_not_starts_with("leftmeta"@, "gr"@, 0);
        lemma_not_ends_with("leftmeta"@, "gr"@, 0);
        lemma_not_ends_with("leftmeta"@, "l"@, 0);
        lemma_not_ends_with("leftmeta"@, "left"@, 0);
        lemma_not_starts_with("leftmeta"@, "ctrl"@, 0);
        lemma_not_ends_with("leftmeta"@, "ctrl"@, 0);
        lemma_not_starts_with("leftmeta"@, "control"@, 0);
        lemma_not_ends_with("leftmeta"@, "control"@, 0);
        lemma_not_starts_with("leftmeta"@, "shift"@, 0);
        lemma_not_ends_with("leftmeta"@, "shift"@, 0);
        lemma_not_starts_with("leftmeta"@, "cmd"@, 0);
        lemma_not_ends_with("leftmeta"@, "cmd"@, 0);
        lemma_not_starts_with("leftmeta"@, "command"@, 0);
        lemma_not_ends_with("leftmeta"@, "command"@, 0);
        lemma_not_starts_with("leftmeta"@, "meta"@, 0);
        lemma_not_starts_with("leftmeta"@, "alt"@, 0);
        lemma_not_ends_with("leftmeta"@, "alt"@, 0);
        lemma_not_starts_with("leftmeta"@, "option"@, 0);
        lemma_not_ends_with("leftmeta"@, "option"@, 0);
        lemma_not_starts_with("leftmeta"@, "fn"@, 0);
        lemma_not_ends_with("leftmeta"@, "fn"@, 0);
        lemma_not_starts_with("leftmeta"@, "function"@, 0);
        lemma_not_ends_with("leftmeta"@, "function"@, 0);
        lemma_not_starts_with("leftmeta"@, "globe"@, 0);
        lemma_not_ends_with("leftmeta"@, "globe"@, 0);
    }
    assert(mask_words_fit("lmeta"@, DEV_L_CMD)) by {
        reveal_strlit("lmeta"); reveal_strlit("r"); reveal_strlit("right"); reveal_strlit("gr"); reveal_strlit("l"); reveal_strlit("left"); reveal_strlit("ctrl"); reveal_strlit("control"); reveal_strlit("shift"); reveal_strlit("cmd"); reveal_strlit("command"); reveal_strlit("meta"); reveal_strlit("alt"); reveal_strlit("option"); reveal_strlit("fn"); reveal_strlit("function"); reveal_strlit("globe");
        lemma_not_starts_with("lmeta"@, "r"@, 0);
        lemma_not_ends_with("lmeta"@, "r"@, 0);
        lemma_not_starts_with("lmeta"@, "right"@, 0);
        lemma_not_ends_with("lmeta"@, "right"@, 0);
        lemma_not_starts_with("lmeta"@, "gr"@, 0);
        lemma_not_ends_with("lmeta"@, "gr"@, 0);
        lemma_not_ends_with("lmeta"@, "l"@, 0);
        lemma_not_starts_with("lmeta"@, "left"@, 1);
        lemma_not_ends_with("lmeta"@, "left"@, 0);
        lemma_not_starts_with("lmeta"@, "ctrl"@, 0);
        lemma_not_ends_with("lmeta"@, "ctrl"@, 0);
        lemma_not_starts_with("lmeta"@, "shift"@, 0);
        lemma_not_ends_with("lmeta"@, "shift"@, 0);
        lemma_not_starts_with("lmeta"@, "cmd"@, 0);
        lemma_not_ends_with("lmeta"@, "cmd"@, 0);
        lemma_not_starts_with("lmeta"@, "meta"@, 0);
        lemma_not_starts_with("lmeta"@, "alt"@, 0);
        lemma_not_ends_with("lmeta"@, "alt"@, 0);
        lemma_not_starts_with("lmeta"@, "fn"@, 0);
        lemma_not_ends_with("lmeta"@, "fn"@, 0);
        lemma_not_starts_with("lmeta"@, "globe"@, 0);
        lemma_not_ends_with("lmeta"@, "globe"@, 0);
    }
    assert(mask_words_fit("rightctrl"@, DEV_R_CTRL)) by {
        reveal_strlit("rightctrl"); reveal_strlit("r"); reveal_strlit("right"); reveal_strlit("gr"); reveal_strlit("l"); reveal_strlit("left"); reveal_strlit("ctrl"); reveal_strlit("control"); reveal_strlit("shift"); reveal_strlit("cmd"); reveal_strlit("command"); reveal_strlit("meta"); reveal_strlit("alt"); reveal_strlit("option"); reveal_strlit("fn"); reveal_strlit("function"); reveal_strlit("globe");
        lemma_not_ends_with("rightctrl"@, "r"@, 0);
        lemma_not_ends_with("rightctrl"@, "right"@, 0);
        lemma_not_starts_with("rightctrl"@, "gr"@, 0);
        lemma_not_ends_with("rightctrl"@, "gr"@, 0);
        lemma_not_starts_with("rightctrl"@, "l"@, 0);
        lemma_not_starts_with("rightctrl"@, "left"@, 0);
        lemma_not_ends_with("rightctrl"@, "left"@, 0);
        lemma_not_starts_with("rightctrl"@, "ctrl"@, 0);
        lemma_not_starts_with("rightctrl"@, "control"@, 0);
        lemma_not_ends_with("rightctrl"@, "control"@, 0);
        lemma_not_starts_with("rightctrl"@, "shift"@, 0);
        lemma_not_ends_with("rightctrl"@, "shift"@, 0);
        lemma_not_starts_with("rightctrl"@, "cmd"@, 0);
        lemma_not_ends_with("rightctrl"@, "cmd"@, 0);
        lemma_not_starts_with("rightctrl"@, "command"@, 0);
        lemma_not_ends_with("rightctrl"@, "command"@, 0);
        lemma_not_starts_with("rightctrl"@, "meta"@, 0);
        lemma_not_ends_with("rightctrl"@, "meta"@, 0);
        lemma_not_starts_with("rightctrl"@, "alt"@, 0);
        lemma_not_ends_with("rightctrl"@, "alt"@, 0);
        lemma_not_starts_with("rightctrl"@, "option"@, 0);
        lemma_not_ends_with("rightctrl"@, "option"@, 0);
        lemma_not_starts_with("rightctrl"@, "fn"@, 0);
        lemma_not_ends_with("rightctrl"@, "fn"@, 0);
        lemma_not_starts_with("rightctrl"@, "function"@, 0);
        lemma_not_ends_with("rightctrl"@, "function"@, 0);
        lemma_not_starts_with("rightctrl"@, "globe"@, 0);
        lemma_not_ends_with("rightctrl"@, "globe"@, 0);
    }
    assert(mask_words_fit("rctrl"@, DEV_R_CTRL)) by {
        reveal_strlit("rctrl"); reveal_strlit("r"); reveal_strlit("right"); reveal_strlit("gr"); reveal_strlit("l"); reveal_strlit("left"); reveal_strlit("ctrl"); reveal_strlit("control"); reveal_strlit("shift"); reveal_strlit("cmd"); reveal_strlit("command"); reveal_strlit("meta"); reveal_strlit("alt"); reveal_strlit("option"); reveal_strlit("fn"); reveal_strlit("function"); reveal_strlit("globe");
        lemma_not_ends_with("rctrl"@, "r"@, 0);
        lemma_not_starts_with("rctrl"@, "right"@, 1);
        lemma_not_ends_with("rctrl"@, "right"@, 1);
        lemma_not_starts_with("rctrl"@, "gr"@, 0);
        lemma_not_ends_with("rctrl"@, "gr"@, 0);
        lemma_not_starts_with("rctrl"@, "l"@, 0);
        lemma_not_starts_with("rctrl"@, "left"@, 0);
        lemma_not_ends_with("rctrl"@, "left"@, 0);
        lemma_not_starts_with("rctrl"@, "ctrl"@, 0);
        lemma_not_starts_with("rctrl"@, "shift"@, 0);
        lemma_not_ends_with("rctrl"@, "shift"@, 0);
        lemma_not_starts_with("rctrl"@, "cmd"@, 0);
        lemma_not_ends_with("rctrl"@, "cmd"@, 0);
        lemma_not_starts_with("rctrl"@, "meta"@, 0);
        lemma_not_ends_with("rctrl"@, "meta"@, 0);
        lemma_not_starts_with("rctrl"@, "alt"@, 0);
        lemma_not_ends_with("rctrl"@, "alt"@, 0);
        lemma_not_starts_with("rctrl"@, "fn"@, 0);
        lemma_not_ends_with("rctrl"@, "fn"@, 0);
        lemma_not_starts_with("rctrl"@, "globe"@, 0);
        lemma_not_ends_with("rctrl"@, "globe"@, 0);
    }
    assert(mask_words_fit("controlright"@, DEV_R_CTRL)) by {
        reveal_strlit("controlright"); reveal_strlit("r"); reveal_strlit("right"); reveal_strlit("gr"); reveal_strlit("l"); reveal_strlit("left"); reveal_strlit("ctrl"); reveal_strlit("control"); reveal_strlit("shift"); reveal_strlit("cmd"); reveal_strlit("command"); reveal_strlit("meta"); reveal_strlit("alt"); reveal_strlit("option"); reveal_strlit("fn"); reveal_strlit("function"); reveal_strlit("globe");
        lemma_not_starts_with("controlright"@, "r"@, 0);
        lemma_not_ends_with("controlright"@, "r"@, 0);
        lemma_not_starts_with("controlright"@, "right"@, 0);
        lemma_not_starts_with("controlright"@, "gr"@, 0);
        lemma_not_ends_with("controlright"@, "gr"@, 0);
        lemma_not_starts_with("controlright"@, "l"@, 0);
        lemma_not_ends_with("controlright"@, "l"@, 0);
        lemma_not_starts_with("controlright"@, "left"@, 0);
        lemma_not_ends_with("controlright"@, "left"@, 0);
        lemma_not_starts_with("controlright"@, "ctrl"@, 1);
        lemma_not_ends_with("controlright"@, "ctrl"@, 0);
        lemma_not_ends_with("controlright"@, "control"@, 0);
        lemma_not_starts_with("controlright"@, "shift"@, 0);
        lemma_not_ends_with("controlright"@, "shift"@, 0);
        lemma_not_starts_with("controlright"@, "cmd"@, 1);
        lemma_not_ends_with("controlright"@, "cmd"@, 0);
        lemma_not_starts_with("controlright"@, "command"@, 2);
        lemma_not_ends_with("controlright"@, "command"@, 0);
        lemma_not_starts_with("controlright"@, "meta"@, 0);
        lemma_not_ends_with("controlright"@, "meta"@, 0);
        lemma_not_starts_with("controlright"@, "alt"@, 0);
        lemma_not_ends_with("controlright"@, "alt"@, 0);
        lemma_not_starts_with("controlright"@, "option"@, 0);
        lemma_not_ends_with("controlright"@, "option"@, 0);
        lemma_not_starts_with("controlright"@, "fn"@, 0);
        lemma_not_ends_with("controlright"@, "fn"@, 0);
        lemma_not_starts_with("controlright"@, "function"@, 0);
        lemma_not_ends_with("controlright"@, "function"@, 0);
        lemma_not_starts_with("controlright"@, "globe"@, 0);
        lemma_not_ends_with("controlright"@, "globe"@, 0);
    }
    assert(mask_words_fit("rightcontrol"@, DEV_R_CTRL)) by {
        reveal_strlit("rightcontrol"); reveal_strlit("r"); reveal_strlit("right"); reveal_strlit("gr"); reveal_strlit("l"); reveal_strlit("left"); reveal_strlit("ctrl"); reveal_strlit("control"); reveal_strlit("shift"); reveal_strlit("cmd"); reveal_strlit("command"); reveal_strlit("meta"); reveal_strlit("alt"); reveal_strlit("option"); reveal_strlit("fn"); reveal_strlit("function"); reveal_strlit("globe");
        lemma_not_ends_with("rightcontrol"@, "r"@, 0);
        lemma_not_ends_with("rightcontrol"@, "right"@, 0);
        lemma_not_starts_with("rightcontrol"@, "gr"@, 0);
        lemma_not_ends_with("rightcontrol"@, "gr"@, 0);
        lemma_not_starts_with("rightcontrol"@, "l"@, 0);
        lemma_not_starts_with("rightcontrol"@, "left"@, 0);
        lemma_not_ends_with("rightcontrol"@, "left"@, 0);
        lemma_not_starts_with("rightcontrol"@, "ctrl"@, 0);
        lemma_not_ends_with("rightcontrol"@, "ctrl"@, 0);
        lemma_not_starts_with("rightcontrol"@, "control"@, 0);
        lemma_not_starts_with("rightcontrol"@, "shift"@, 0);
        lemma_not_ends_with("rightcontrol"@, "shift"@, 0);
        lemma_not_starts_with("rightcontrol"@, "cmd"@, 0);
        lemma_not_ends_with("rightcontrol"@, "cmd"@, 0);
        lemma_not_starts_with("rightcontrol"@, "command"@, 0);
        lemma_not_ends_with("rightcontrol"@, "command"@, 2);
        lemma_not_starts_with("rightcontrol"@, "meta"@, 0);
        lemma_not_ends_with("rightcontrol"@, "meta"@, 0);
        lemma_not_starts_with("rightcontrol"@, "alt"@, 0);
        lemma_not_ends_with("rightcontrol"@, "alt"@, 0);
        lemma_not_starts_with("rightcontrol"@, "option"@, 0);
        lemma_not_ends_with("rightcontrol"@, "option"@, 1);
        lemma_not_starts_with("rightcontrol"@, "fn"@, 0);
        lemma_not_ends_with("rightcontrol"@, "fn"@, 0);
        lemma_not_starts_with("rightcontrol"@, "function"@, 0);
        lemma_not_ends_with("rightcontrol"@, "function"@, 0);
        lemma_not_starts_with("rightcontrol"@, "globe"@, 0);
        lemma_not_ends_with("rightcontrol"@, "globe"@, 0);
    }
    assert(mask_words_fit("leftctrl"@, DEV_L_CTRL)) by {
        reveal_strlit("leftctrl"); reveal_strlit("r"); reveal_strlit("right"); reveal_strlit("gr"); reveal_strlit("l"); reveal_strlit("left"); reveal_strlit("ctrl"); reveal_strlit("control"); reveal_strlit("shift"); reveal_strlit("cmd"); reveal_strlit("command"); reveal_strlit("meta"); reveal_strlit("alt"); reveal_strlit("option"); reveal_strlit("fn"); reveal_strlit("function"); reveal_strlit("globe");
        lemma_not_starts_with("leftctrl"@, "r"@, 0);
        lemma_not_ends_with("leftctrl"@, "r"@, 0);
        lemma_not_starts_with("leftctrl"@, "right"@, 0);
        lemma_not_ends_with("leftctrl"@, "right"@, 0);
        lemma_not_starts_with("leftctrl"@, "gr"@, 0);
        lemma_not_ends_with("leftctrl"@, "gr"@, 0);
        lemma_not_ends_with("leftctrl"@, "left"@, 0);
        lemma_not_starts_with("leftctrl"@, "ctrl"@, 0);
        lemma_not_starts_with("leftctrl"@, "control"@, 0);
        lemma_not_ends_with("leftctrl"@, "control"@, 0);
        lemma_not_starts_with("leftctrl"@, "shift"@, 0);
        lemma_not_ends_with("leftctrl"@, "shift"@, 0);
        lemma_not_starts_with("leftctrl"@, "cmd"@, 0);
        lemma_not_ends_with("leftctrl"@, "cmd"@, 0);
        lemma_not_starts_with("leftctrl"@, "command"@, 0);
        lemma_not_ends_with("leftctrl"@, "command"@, 0);
        lemma_not_starts_with("leftctrl"@, "meta"@, 0);
        lemma_not_ends_with("leftctrl"@, "meta"@, 0);
        lemma_not_starts_with("leftctrl"@, "alt"@, 0);
        lemma_not_ends_with("leftctrl"@, "alt"@, 0);
        lemma_not_starts_with("leftctrl"@, "option"@, 0);
        lemma_not_ends_with("leftctrl"@, "option"@, 0);
        lemma_not_starts_with("leftctrl"@, "fn"@, 0);
        lemma_not_ends_with("leftctrl"@, "fn"@, 0);
        lemma_not_starts_with("leftctrl"@, "function"@, 0);
        lemma_not_ends_with("leftctrl"@, "function"@, 0);
        lemma_not_starts_with("leftctrl"@, "globe"@, 0);
        lemma_not_ends_with("leftctrl"@, "globe"@, 0);
    }
    assert(mask_words_fit("lctrl"@, DEV_L_CTRL)) by {
        reveal_strlit("lctrl"); reveal_strlit("r"); reveal_strlit("right"); reveal_strlit("gr"); reveal_strlit("l"); reveal_strlit("left"); reveal_strlit("ctrl"); reveal_strlit("control"); reveal_strlit("shift"); reveal_strlit("cmd"); reveal_strlit("command"); reveal_strlit("meta"); reveal_strlit("alt"); reveal_strlit("option"); reveal_strlit("fn"); reveal_strlit("function"); reveal_strlit("globe");
        lemma_not_starts_with("lctrl"@, "r"@, 0);
        lemma_not_ends_with("lctrl"@, "r"@, 0);
        lemma_not_starts_with("lctrl"@, "right"@, 0);
        lemma_not_ends_with("lctrl"@, "right"@, 0);
        lemma_not_starts_with("lctrl"@, "gr"@, 0);
        lemma_not_ends_with("lctrl"@, "gr"@, 0);
        lemma_not_starts_with("lctrl"@, "left"@, 1);
        lemma_not_ends_with("lctrl"@, "left"@, 0);
        lemma_not_starts_with("lctrl"@, "ctrl"@, 0);
        lemma_not_starts_with("lctrl"@, "shift"@, 0);
        lemma_not_ends_with("lctrl"@, "shift"@, 0);
        lemma_not_starts_with("lctrl"@, "cmd"@, 0);
        lemma_not_ends_with("lctrl"@, "cmd"@, 0);
        lemma_not_starts_with("lctrl"@, "meta"@, 0);
        lemma_not_ends_with("lctrl"@, "meta"@, 0);
        lemma_not_starts_with("lctrl"@, "alt"@, 0);
        lemma_not_ends_with("lctrl"@, "alt"@, 0);
        lemma_not_starts_with("lctrl"@, "fn"@, 0);
        lemma_not_ends_with("lctrl"@, "fn"@, 0);
        lemma_not_starts_with("lctrl"@, "globe"@, 0);
        lemma_not_ends_with("lctrl"@, "globe"@, 0);
    }
    assert(mask_words_fit("controlleft"@, DEV_L_CTRL)) by {
        reveal_strlit("controlleft"); reveal_strlit("r"); reveal_strlit("right"); reveal_strlit("gr"); reveal_strlit("l"); reveal_strlit("left"); reveal_strlit("ctrl"); reveal_strlit("control"); reveal_strlit("shift"); reveal_strlit("cmd"); reveal_strlit("command"); reveal_strlit("meta"); reveal_strlit("alt"); reveal_strlit("option"); reveal_strlit("fn"); reveal_strlit("function"); reveal_strlit("globe");
        lemma_not_starts_with("controlleft"@, "r"@, 0);
        lemma_not_ends_with("controlleft"@, "r"@, 0);
        lemma_not_starts_with("controlleft"@, "right"@, 0);
        lemma_not_ends_with("controlleft"@, "right"@, 0);
        lemma_not_starts_with("controlleft"@, "gr"@, 0);
        lemma_not_ends_with("controlleft"@, "gr"@, 0);
        lemma_not_starts_with("controlleft"@, "l"@, 0);
        lemma_not_ends_with("controlleft"@, "l"@, 0);
        lemma_not_starts_with("controlleft"@, "left"@, 0);
        lemma_not_starts_with("controlleft"@, "ctrl"@, 1);
        lemma_not_ends_with("controlleft"@, "ctrl"@, 0);
        lemma_not_ends_with("controlleft"@, "control"@, 0);
        lemma_not_starts_with("controlleft"@, "shift"@, 0);
        lemma_not_ends_with("controlleft"@, "shift"@, 0);
        lemma_not_starts_with("controlleft"@, "cmd"@, 1);
        lemma_not_ends_with("controlleft"@, "cmd"@, 0);
        lemma_not_starts_with("controlleft"@, "command"@, 2);
        lemma_not_ends_with("controlleft"@, "command"@, 0);
        lemma_not_starts_with("controlleft"@, "meta"@, 0);
        lemma_not_ends_with("controlleft"@, "meta"@, 0);
        lemma_not_starts_with("controlleft"@, "alt"@, 0);
        lemma_not_ends_with("controlleft"@, "alt"@, 0);
        lemma_not_starts_with("controlleft"@, "option"@, 0);
        lemma_not_ends_with("controlleft"@, "option"@, 1);
        lemma_not_starts_with("controlleft"@, "fn"@, 0);
        lemma_not_ends_with("controlleft"@, "fn"@, 1);
        lemma_not_starts_with("controlleft"@, "function"@, 0);
        lemma_not_ends_with("controlleft"@, "function"@, 0);
        lemma_not_starts_with("controlleft"@, "globe"@, 0);
        lemma_not_ends_with("controlleft"@, "globe"@, 0);
    }
    assert(mask_words_fit("leftcontrol"@, DEV_L_CTRL)) by {
        reveal_strlit("leftcontrol"); reveal_strlit("r"); reveal_strlit("right"); reveal_strlit("gr"); reveal_strlit("l"); reveal_strlit("left"); reveal_strlit("ctrl"); reveal_strlit("control"); reveal_strlit("shift"); reveal_strlit("cmd"); reveal_strlit("command"); reveal_strlit("meta"); reveal_strlit("alt"); reveal_strlit("option"); reveal_strlit("fn"); reveal_strlit("function"); reveal_strlit("globe");
        lemma_not_starts_with("leftcontrol"@, "r"@, 0);
        lemma_not_ends_with("leftcontrol"@, "r"@, 0);
        lemma_not_starts_with("leftcontrol"@, "right"@, 0);
        lemma_not_ends_with("leftcontrol"@, "right"@, 0);
        lemma_not_starts_with("leftcontrol"@, "gr"@, 0);
        lemma_not_ends_with("leftcontrol"@, "gr"@, 0);
        lemma_not_ends_with("leftcontrol"@, "left"@, 0);
        lemma_not_starts_with("leftcontrol"@, "ctrl"@, 0);
        lemma_not_ends_with("leftcontrol"@, "ctrl"@, 0);
        lemma_not_starts_with("leftcontrol"@, "control"@, 0);
        lemma_not_starts_with("leftcontrol"@, "shift"@, 0);
        lemma_not_ends_with("leftcontrol"@, "shift"@, 0);
        lemma_not_starts_with("leftcontrol"@, "cmd"@, 0);
        lemma_not_ends_with("leftcontrol"@, "cmd"@, 0);
        lemma_not_starts_with("leftcontrol"@, "command"@, 0);
        lemma_not_ends_with("leftcontrol"@, "command"@, 2);
        lemma_not_starts_with("leftcontrol"@, "meta"@, 0);
        lemma_not_ends_with("leftcontrol"@, "meta"@, 0);
        lemma_not_starts_with("leftcontrol"@, "alt"@, 0);
        lemma_not_ends_with("leftcontrol"@, "alt"@, 0);
        lemma_not_starts_with("leftcontrol"@, "option"@, 0);
        lemma_not_ends_with("leftcontrol"@, "option"@, 1);
        lemma_not_starts_with("leftcontrol"@, "fn"@, 0);
        lemma_not_ends_with("leftcontrol"@, "fn"@, 0);
        lemma_not_starts_with("leftcontrol"@, "function"@, 0);
        lemma_not_ends_with("leftcontrol"@, "function"@, 0);
        lemma_not_starts_with("leftcontrol"@, "globe"@, 0);
        lemma_not_ends_with("leftcontrol"@, "globe"@, 0);
    }
    assert(mask_words_fit("rightshift"@, DEV_R_SHIFT)) by {
        reveal_strlit("rightshift"); reveal_strlit("r"); reveal_strlit("right"); reveal_strlit("gr"); reveal_strlit("l"); reveal_strlit("left"); reveal_strlit("ctrl"); reveal_strlit("control"); reveal_strlit("shift"); reveal_strlit("cmd"); reveal_strlit("command"); reveal_strlit("meta"); reveal_strlit("alt"); reveal_strlit("option"); reveal_strlit("fn"); reveal_strlit("function"); reveal_strlit("globe");
        lemma_not_ends_with("rightshift"@, "r"@, 0);
        lemma_not_ends_with("rightshift"@, "right"@, 0);
        lemma_not_starts_with("rightshift"@, "gr"@, 0);
        lemma_not_ends_with("rightshift"@, "gr"@, 0);
        lemma_not_starts_with("rightshift"@, "l"@, 0);
        lemma_not_ends_with("rightshift"@, "l"@, 0);
        lemma_not_starts_with("rightshift"@, "left"@, 0);
        lemma_not_ends_with("rightshift"@, "left"@, 0);
        lemma_not_starts_with("rightshift"@, "ctrl"@, 0);
        lemma_not_ends_with("rightshift"@, "ctrl"@, 0);
        lemma_not_starts_with("rightshift"@, "control"@, 0);
        lemma_not_ends_with("rightshift"@, "control"@, 0);
        lemma_not_starts_with("rightshift"@, "shift"@, 0);
        lemma_not_starts_with("rightshift"@, "cmd"@, 0);
        lemma_not_ends_with("rightshift"@, "cmd"@, 0);
        lemma_not_starts_with("rightshift"@, "command"@, 0);
        lemma_not_ends_with("rightshift"@, "command"@, 0);
        lemma_not_starts_with("rightshift"@, "meta"@, 0);
        lemma_not_ends_with("rightshift"@, "meta"@, 0);
        lemma_not_starts_with("rightshift"@, "alt"@, 0);
        lemma_not_ends_with("rightshift"@, "alt"@, 0);
        lemma_not_starts_with("rightshift"@, "option"@, 0);
        lemma_not_ends_with("rightshift"@, "option"@, 0);
        lemma_not_starts_with("rightshift"@, "fn"@, 0);
        lemma_not_ends_with("rightshift"@, "fn"@, 1);
        lemma_not_starts_with("rightshift"@, "function"@, 0);
        lemma_not_ends_with("rightshift"@, "function"@, 0);
        lemma_not_starts_with("rightshift"@, "globe"@, 0);
        lemma_not_ends_with("rightshift"@, "globe"@, 0);
    }
    assert(mask_words_fit("rshift"@, DEV_R_SHIFT)) by {
        reveal_strlit("rshift"); reveal_strlit("r"); reveal_strlit("right"); reveal_strlit("gr"); reveal_strlit("l"); reveal_strlit("left"); reveal_strlit("ctrl"); reveal_strlit("control"); reveal_strlit("shift"); reveal_strlit("cmd"); reveal_strlit("command"); reveal_strlit("meta"); reveal_strlit("alt"); reveal_strlit("option"); reveal_strlit("fn"); reveal_strlit("function"); reveal_strlit("globe");
        lemma_not_ends_with("rshift"@, "r"@, 0);
        lemma_not_starts_with("rshift"@, "right"@, 1);
        lemma_not_ends_with("rshift"@, "right"@, 0);
        lemma_not_starts_with("rshift"@, "gr"@, 0);
        lemma_not_ends_with("rshift"@, "gr"@, 0);
        lemma_not_starts_with("rshift"@, "l"@, 0);
        lemma_not_ends_with("rshift"@, "l"@, 0);
        lemma_not_starts_with("rshift"@, "left"@, 0);
        lemma_not_ends_with("rshift"@, "left"@, 0);
        lemma_not_starts_with("rshift"@, "ctrl"@, 0);
        lemma_not_ends_with("rshift"@, "ctrl"@, 0);
        lemma_not_starts_with("rshift"@, "shift"@, 0);
        lemma_not_starts_with("rshift"@, "cmd"@, 0);
        lemma_not_ends_with("rshift"@, "cmd"@, 0);
        lemma_not_starts_with("rshift"@, "meta"@, 0);
        lemma_not_ends_with("rshift"@, "meta"@, 0);
        lemma_not_starts_with("rshift"@, "alt"@, 0);
        lemma_not_ends_with("rshift"@, "alt"@, 0);
        lemma_not_starts_with("rshift"@, "option"@, 0);
        lemma_not_ends_with("rshift"@, "option"@, 0);
        lemma_not_starts_with("rshift"@, "fn"@, 0);
        lemma_not_ends_with("rshift"@, "fn"@, 1);
        lemma_not_starts_with("rshift"@, "globe"@, 0);
        lemma_not_ends_with("rshift"@, "globe"@, 0);
    }
    assert(mask_words_fit("shiftright"@, DEV_R_SHIFT)) by {
        reveal_strlit("shiftright"); reveal_strlit("r"); reveal_strlit("right"); reveal_strlit("gr"); reveal_strlit("l"); reveal_strlit("left"); reveal_strlit("ctrl"); reveal_strlit("control"); reveal_strlit("shift"); reveal_strlit("cmd"); reveal_strlit("command"); reveal_strlit("meta"); reveal_strlit("alt"); reveal_strlit("option"); reveal_strlit("fn"); reveal_strlit("function"); reveal_strlit("globe");
        lemma_not_starts_with("shiftright"@, "r"@, 0);
        lemma_not_ends_with("shiftright"@, "r"@, 0);
        lemma_not_starts_with("shiftright"@, "right"@, 0);
        lemma_not_starts_with("shiftright"@, "gr"@, 0);
        lemma_not_ends_with("shiftright"@, "gr"@, 0);
        lemma_not_starts_with("shiftright"@, "l"@, 0);
        lemma_not_ends_with("shiftright"@, "l"@, 0);
        lemma_not_starts_with("shiftright"@, "left"@, 0);
        lemma_not_ends_with("shiftright"@, "left"@, 0);
        lemma_not_starts_with("shiftright"@, "ctrl"@, 0);
        lemma_not_ends_with("shiftright"@, "ctrl"@, 0);
        lemma_not_starts_with("shiftright"@, "control"@, 0);
        lemma_not_ends_with("shiftright"@, "control"@, 0);
        lemma_not_ends_with("shiftright"@, "shift"@, 0);
        lemma_not_starts_with("shiftright"@, "cmd"@, 0);
        lemma_not_ends_with("shiftright"@, "cmd"@, 0);
        lemma_not_starts_with("shiftright"@, "command"@, 0);
        lemma_not_ends_with("shiftright"@, "command"@, 0);
        lemma_not_starts_with("shiftright"@, "meta"@, 0);
        lemma_not_ends_with("shiftright"@, "meta"@, 0);
        lemma_not_starts_with("shiftright"@, "alt"@, 0);
        lemma_not_ends_with("shiftright"@, "alt"@, 0);
        lemma_not_starts_with("shiftright"@, "option"@, 0);
        lemma_not_ends_with("shiftright"@, "option"@, 0);
        lemma_not_starts_with("shiftright"@, "fn"@, 0);
        lemma_not_ends_with("shiftright"@, "fn"@, 0);
        lemma_not_starts_with("shiftright"@, "function"@, 0);
        lemma_not_ends_with("shiftright"@, "function"@, 0);
        lemma_not_starts_with("shiftright"@, "globe"@, 0);
        lemma_not_ends_with("shiftright"@, "globe"@, 0);
    }
    assert(mask_words_fit("leftshift"@, DEV_L_SHIFT)) by {
        reveal_strlit("leftshift"); reveal_strlit("r"); reveal_strlit("right"); reveal_strlit("gr"); reveal_strlit("l"); reveal_strlit("left"); reveal_strlit("ctrl"); reveal_strlit("control"); reveal_strlit("shift"); reveal_strlit("cmd"); reveal_strlit("command"); reveal_strlit("meta"); reveal_strlit("alt"); reveal_strlit("option"); reveal_strlit("fn"); reveal_strlit("function"); reveal_strlit("globe");
        lemma_not_starts_with("leftshift"@, "r"@, 0);
        lemma_not_ends_with("leftshift"@, "r"@, 0);
        lemma_not_starts_with("leftshift"@, "right"@, 0);
        lemma_not_ends_with("leftshift"@, "right"@, 0);
        lemma_not_starts_with("leftshift"@, "gr"@, 0);
        lemma_not_ends_with("leftshift"@, "gr"@, 0);
        lemma_not_ends_with("leftshift"@, "l"@, 0);
        lemma_not_ends_with("leftshift"@, "left"@, 0);
        lemma_not_starts_with("leftshift"@, "ctrl"@, 0);
        lemma_not_ends_with("leftshift"@, "ctrl"@, 0);
        lemma_not_starts_with("leftshift"@, "control"@, 0);
        lemma_not_ends_with("leftshift"@, "control"@, 0);
        lemma_not_starts_with("leftshift"@, "shift"@, 0);
        lemma_not_starts_with("leftshift"@, "cmd"@, 0);
        lemma_not_ends_with("leftshift"@, "cmd"@, 0);
        lemma_not_starts_with("leftshift"@, "command"@, 0);
        lemma_not_ends_with("leftshift"@, "command"@, 0);
        lemma_not_starts_with("leftshift"@, "meta"@, 0);
        lemma_not_ends_with("leftshift"@, "meta"@, 0);
        lemma_not_starts_with("leftshift"@, "alt"@, 0);
        lemma_not_ends_with("leftshift"@, "alt"@, 0);
        lemma_not_starts_with("leftshift"@, "option"@, 0);
        lemma_not_ends_with("leftshift"@, "option"@, 0);
        lemma_not_starts_with("leftshift"@, "fn"@, 0);
        lemma_not_ends_with("leftshift"@, "fn"@, 1);
        lemma_not_starts_with("leftshift"@, "function"@, 0);
        lemma_not_ends_with("leftshift"@, "function"@, 0);
        lemma_not_starts_with("leftshift"@, "globe"@, 0);
        lemma_not_ends_with("leftshift"@, "globe"@, 0);
    }
    assert(mask_words_fit("lshift"@, DEV_L_SHIFT)) by {
        reveal_strlit("lshift"); reveal_strlit("r"); reveal_strlit("right"); reveal_strlit("gr"); reveal_strlit("l"); reveal_strlit("left"); reveal_strlit("ctrl"); reveal_strlit("control"); reveal_strlit("shift"); reveal_strlit("cmd"); reveal_strlit("command"); reveal_strlit("meta"); reveal_strlit("alt"); reveal_strlit("option"); reveal_strlit("fn"); reveal_strlit("function"); reveal_strlit("globe");
        lemma_not_starts_with("lshift"@, "r"@, 0);
        lemma_not_ends_with("lshift"@, "r"@, 0);
        lemma_not_starts_with("lshift"@, "right"@, 0);
        lemma_not_ends_with("lshift"@, "right"@, 0);
        lemma_not_starts_with("lshift"@, "gr"@, 0);
        lemma_not_ends_with("lshift"@, "gr"@, 0);
        lemma_not_ends_with("lshift"@, "l"@, 0);
        lemma_not_starts_with("lshift"@, "left"@, 1);
        lemma_not_ends_with("lshift"@, "left"@, 0);
        lemma_not_starts_with("lshift"@, "ctrl"@, 0);
        lemma_not_ends_with("lshift"@, "ctrl"@, 0);
        lemma_not_starts_with("lshift"@, "shift"@, 0);
        lemma_not_starts_with("lshift"@, "cmd"@, 0);
        lemma_not_ends_with("lshift"@, "cmd"@, 0);
        lemma_not_starts_with("lshift"@, "meta"@, 0);
        lemma_not_ends_with("lshift"@, "meta"@, 0);
        lemma_not_starts_with("lshift"@, "alt"@, 0);
        lemma_not_ends_with("lshift"@, "alt"@, 0);
        lemma_not_starts_with("lshift"@, "option"@, 0);
        lemma_not_ends_with("lshift"@, "option"@, 0);
        lemma_not_starts_with("lshift"@, "fn"@, 0);
        lemma_not_ends_with("lshift"@, "fn"@, 1);
        lemma_not_starts_with("lshift"@, "globe"@, 0);
        lemma_not_ends_with("lshift"@, "globe"@, 0);
    }
    assert(mask_words_fit("shiftleft"@, DEV_L_SHIFT)) by {
        reveal_strlit("shiftleft"); reveal_strlit("r"); reveal_strlit("right"); reveal_strlit("gr"); reveal_strlit("l"); reveal_strlit("left"); reveal_strlit("ctrl"); reveal_strlit("control"); reveal_strlit("shift"); reveal_strlit("cmd"); reveal_strlit("command"); reveal_strlit("meta"); reveal_strlit("alt"); reveal_strlit("option"); reveal_strlit("fn"); reveal_strlit("function"); reveal_strlit("globe");
        lemma_not_starts_with("shiftleft"@, "r"@, 0);
        lemma_not_ends_with("shiftleft"@, "r"@, 0);
        lemma_not_starts_with("shiftleft"@, "right"@, 0);
        lemma_not_ends_with("shiftleft"@, "right"@, 0);
        lemma_not_starts_with("shiftleft"@, "gr"@, 0);
        lemma_not_ends_with("shiftleft"@, "gr"@, 0);
        lemma_not_starts_with("shiftleft"@, "l"@, 0);
        lemma_not_ends_with("shiftleft"@, "l"@, 0);
        lemma_not_starts_with("shiftleft"@, "left"@, 0);
        lemma_not_starts_with("shiftleft"@, "ctrl"@, 0);
        lemma_not_ends_with("shiftleft"@, "ctrl"@, 0);
        lemma_not_starts_with("shiftleft"@, "control"@, 0);
        lemma_not_ends_with("shiftleft"@, "control"@, 0);
        lemma_not_ends_with("shiftleft"@, "shift"@, 0);
        lemma_not_starts_with("shiftleft"@, "cmd"@, 0);
        lemma_not_ends_with("shiftleft"@, "cmd"@, 0);
        lemma_not_starts_with("shiftleft"@, "command"@, 0);
        lemma_not_ends_with("shiftleft"@, "command"@, 0);
        lemma_not_starts_with("shiftleft"@, "meta"@, 0);
        lemma_not_ends_with("shiftleft"@, "meta"@, 0);
        lemma_not_starts_with("shiftleft"@, "alt"@, 0);
        lemma_not_ends_with("shiftleft"@, "alt"@, 0);
        lemma_not_starts_with("shiftleft"@, "option"@, 0);
        lemma_not_ends_with("shiftleft"@, "option"@, 0);
        lemma_not_starts_with("shiftleft"@, "fn"@, 0);
        lemma_not_ends_with("shiftleft"@, "fn"@, 1);
        lemma_not_starts_with("shiftleft"@, "function"@, 0);
        lemma_not_ends_with("shiftleft"@, "function"@, 0);
        lemma_not_starts_with("shiftleft"@, "globe"@, 0);
        lemma_not_ends_with("shiftleft"@, "globe"@, 0);
    }
    assert(mask_words_fit("fn"@, FN_MASK)) by {
        reveal_strlit("fn"); reveal_strlit("r"); reveal_strlit("right"); reveal_strlit("gr"); reveal_strlit("l"); reveal_strlit("left"); reveal_strlit("ctrl"); reveal_strlit("control"); reveal_strlit("shift"); reveal_strlit("cmd"); reveal_strlit("command"); reveal_strlit("meta"); reveal_strlit("alt"); reveal_strlit("option"); reveal_strlit("function"); reveal_strlit("globe");
        lemma_not_starts_with("fn"@, "r"@, 0);
        lemma_not_ends_with("fn"@, "r"@, 0);
        lemma_not_starts_with("fn"@, "gr"@, 0);
        lemma_not_ends_with("fn"@, "gr"@, 0);
        lemma_not_starts_with("fn"@, "l"@, 0);
        lemma_not_ends_with("fn"@, "l"@, 0);
    }
    assert(mask_words_fit("function"@, FN_MASK)) by {
        reveal_strlit("function"); reveal_strlit("r"); reveal_strlit("right"); reveal_strlit("gr"); reveal_strlit("l"); reveal_strlit("left"); reveal_strlit("ctrl"); reveal_strlit("control"); reveal_strlit("shift"); reveal_strlit("cmd"); reveal_strlit("command"); reveal_strlit("meta"); reveal_strlit("alt"); reveal_strlit("option"); reveal_strlit("fn"); reveal_strlit("globe");
        lemma_not_starts_with("function"@, "r"@, 0);
        lemma_not_ends_with("function"@, "r"@, 0);
        lemma_not_starts_with("function"@, "right"@, 0);
        lemma_not_ends_with("function"@, "right"@, 0);
        lemma_not_starts_with("function"@, "gr"@, 0);
        lemma_not_ends_with("function"@, "gr"@, 0);
        lemma_not_starts_with("function"@, "l"@, 0);
        lemma_not_ends_with("function"@, "l"@, 0);
        lemma_not_starts_with("function"@, "left"@, 0);
        lemma_not_ends_with("function"@, "left"@, 0);
        lemma_not_starts_with("function"@, "ctrl"@, 0);
        lemma_not_ends_with("function"@, "ctrl"@, 0);
        lemma_not_starts_with("function"@, "control"@, 0);
        lemma_not_ends_with("function"@, "control"@, 0);
        lemma_not_starts_with("function"@, "shift"@, 0);
        lemma_not_ends_with("function"@, "shift"@, 0);
        lemma_not_starts_with("function"@, "cmd"@, 0);
        lemma_not_ends_with("function"@, "cmd"@, 0);
        lemma_not_starts_with("function"@, "command"@, 0);
        lemma_not_ends_with("function"@, "command"@, 0);
        lemma_not_starts_with("function"@, "meta"@, 0);
        lemma_not_ends_with("function"@, "meta"@, 0);
        lemma_not_starts_with("function"@, "alt"@, 0);
        lemma_not_ends_with("function"@, "alt"@, 0);
        lemma_not_starts_with("function"@, "option"@, 0);
        lemma_not_ends_with("function"@, "option"@, 0);
        lemma_not_starts_with("function"@, "fn"@, 1);
        lemma_not_ends_with("function"@, "fn"@, 0);
        lemma_not_starts_with("function"@, "globe"@, 0);
        lemma_not_ends_with("function"@, "globe"@, 0);
    }
    assert(mask_words_fit("globe"@, FN_MASK)) by {
        reveal_strlit("globe"); reveal_strlit("r"); reveal_strlit("right"); reveal_strlit("gr"); reveal_strlit("l"); reveal_strlit("left"); reveal_strlit("ctrl"); reveal_strlit("control"); reveal_strlit("shift"); reveal_strlit("cmd"); reveal_strlit("command"); reveal_strlit("meta"); reveal_strlit("alt"); reveal_strlit("option"); reveal_strlit("fn"); reveal_strlit("function");
        lemma_not_starts_with("globe"@, "r"@, 0);
        lemma_not_ends_with("globe"@, "r"@, 0);
        lemma_not_starts_with("globe"@, "right"@, 0);
        lemma_not_ends_with("globe"@, "right"@, 0);
        lemma_not_starts_with("globe"@, "gr"@, 1);
        lemma_not_ends_with("globe"@, "gr"@, 0);
        lemma_not_starts_with("globe"@, "l"@, 0);
        lemma_not_ends_with("globe"@, "l"@, 0);
        lemma_not_starts_with("globe"@, "left"@, 0);
        lemma_not_ends_with("globe"@, "left"@, 1);
        lemma_not_starts_with("globe"@, "ctrl"@, 0);
        lemma_not_ends_with("globe"@, "ctrl"@, 0);
        lemma_not_starts_with("globe"@, "shift"@, 0);
        lemma_not_ends_with("globe"@, "shift"@, 0);
        lemma_not_starts_with("globe"@, "cmd"@, 0);
        lemma_not_ends_with("globe"@, "cmd"@, 0);
        lemma_not_starts_with("globe"@, "meta"@, 0);
        lemma_not_ends_with("globe"@, "meta"@, 0);
        lemma_not_starts_with("globe"@, "alt"@, 0);
        lemma_not_ends_with("globe"@, "alt"@, 0);
        lemma_not_starts_with("globe"@, "fn"@, 0);
        lemma_not_ends_with("globe"@, "fn"@, 0);
    }
}

/// Every name `parse_hotkey` accepts here (after trimming and lower-casing) gives the
/// key its words name, as for the console table (see [`key_words_fit`]): right names
/// never give a left key, left names never a right key, and the kind word fixes the
/// kind.
pub proof fn lemma_portable_names_mean_their_key(n: Seq<char>)
    requires
        portable_key_named(n) is Some,
    ensures
        key_words_fit(n, portable_key_named(n)->0),
{
    assert(key_words_fit("rightalt"@, TriggerKey::AltGr)) by {
        reveal_strlit("rightalt"); reveal_strlit("r"); reveal_strlit("right"); reveal_strlit("gr"); reveal_strlit("l"); reveal_strlit("left"); reveal_strlit("ctrl"); reveal_strlit("control"); reveal_strlit("shift"); reveal_strlit("alt"); reveal_strlit("option"); reveal_strlit("pause"); reveal_strlit("scrolllock");
        lemma_not_ends_with("rightalt"@, "r"@, 0);
        lemma_not_ends_with("rightalt"@, "right"@, 0);
        lemma_not_starts_with("rightalt"@, "gr"@, 0);
        lemma_not_ends_with("rightalt"@, "gr"@, 0);
        lemma_not_starts_with("rightalt"@, "l"@, 0);
        lemma_not_ends_with("rightalt"@, "l"@, 0);
        lemma_not_starts_with("rightalt"@, "left"@, 0);
        lemma_not_ends_with("rightalt"@, "left"@, 0);
        lemma_not_starts_with("rightalt"@, "ctrl"@, 0);
        lemma_not_ends_with("rightalt"@, "ctrl"@, 0);
        lemma_not_starts_with("rightalt"@, "control"@, 0);
        lemma_not_ends_with("rightalt"@, "control"@, 0);
        lemma_not_starts_with("rightalt"@, "shift"@, 0);
        lemma_not_ends_with("rightalt"@, "shift"@, 0);
        lemma_not_starts_with("rightalt"@, "alt"@, 0);
        lemma_not_starts_with("rightalt"@, "option"@, 0);
        lemma_not_ends_with("rightalt"@, "option"@, 0);
        lemma_not_starts_with("rightalt"@, "pause"@, 0);
        lemma_not_ends_with("rightalt"@, "pause"@, 0);
    }
    assert(key_words_fit("ralt"@, TriggerKey::AltGr)) by {
        reveal_strlit("ralt"); reveal_strlit("r"); reveal_strlit("right"); reveal_strlit("gr"); reveal_strlit("l"); reveal_strlit("left"); reveal_strlit("ctrl"); reveal_strlit("control"); reveal_strlit("shift"); reveal_strlit("alt"); reveal_strlit("option"); reveal_strlit("pause"); reveal_strlit("scrolllock");
        lemma_not_ends_with("ralt"@, "r"@, 0);
        lemma_not_starts_with("ralt"@, "gr"@, 0);
        lemma_not_ends_with("ralt"@, "gr"@, 0);
        lemma_not_starts_with("ralt"@, "l"@, 0);
        lemma_not_ends_with("ralt"@, "l"@, 0);
        lemma_not_starts_with("ralt"@, "left"@, 0);
        lemma_not_ends_with("ralt"@, "left"@, 0);
        lemma_not_starts_with("ralt"@, "ctrl"@, 0);
        lemma_not_ends_with("ralt"@, "ctrl"@, 0);
        lemma_not_starts_with("ralt"@, "alt"@, 0);
    }
    assert(key_words_fit("altgr"@, TriggerKey::AltGr)) by {
        reveal_strlit("altgr"); reveal_strlit("r"); reveal_strlit("right"); reveal_strlit("gr"); reveal_strlit("l"); reveal_strlit("left"); reveal_strlit("ctrl"); reveal_strlit("control"); reveal_strlit("shift"); reveal_strlit("alt"); reveal_strlit("option"); reveal_strlit("pause"); reveal_strlit("scrolllock");
        lemma_not_starts_with("altgr"@, "r"@, 0);
        lemma_not_starts_with("altgr"@, "right"@, 0);
        lemma_not_ends_with("altgr"@, "right"@, 0);
        lemma_not_starts_with("altgr"@, "gr"@, 0);
        lemma_not_starts_with("altgr"@, "l"@, 0);
        lemma_not_ends_with("altgr"@, "l"@, 0);
        lemma_not_starts_with("altgr"@, "left"@, 0);
        lemma_not_ends_with("altgr"@, "left"@, 1);
        lemma_not_starts_with("altgr"@, "ctrl"@, 0);
        lemma_not_ends_with("altgr"@, "ctrl"@, 0);
        lemma_not_starts_with("altgr"@, "shift"@, 0);
        lemma_not_ends_with("altgr"@, "shift"@, 0);
        lemma_not_ends_with("altgr"@, "alt"@, 0);
        lemma_not_starts_with("altgr"@, "pause"@, 0);
        lemma_not_ends_with("altgr"@, "pause"@, 0);
    }
    assert(key_words_fit("rightoption"@, TriggerKey::AltGr)) by {
        reveal_strlit("rightoption"); reveal_strlit("r"); reveal_strlit("right"); reveal_strlit("gr"); reveal_strlit("l"); reveal_strlit("left"); reveal_strlit("ctrl"); reveal_strlit("control"); reveal_strlit("shift"); reveal_strlit("alt"); reveal_strlit("option"); reveal_strlit("pause"); reveal_strlit("scrolllock");
        lemma_not_ends_with("rightoption"@, "r"@, 0);
        lemma_not_ends_with("rightoption"@, "right"@, 0);
        lemma_not_starts_with("rightoption"@, "gr"@, 0);
        lemma_not_ends_with("rightoption"@, "gr"@, 0);
        lemma_not_starts_with("rightoption"@, "l"@, 0);
        lemma_not_ends_with("rightoption"@, "l"@, 0);
        lemma_not_starts_with("rightoption"@, "left"@, 0);
        lemma_not_ends_with("rightoption"@, "left"@, 0);
        lemma_not_starts_with("rightoption"@, "ctrl"@, 0);
        lemma_not_ends_with("rightoption"@, "ctrl"@, 0);
        lemma_not_starts_with("rightoption"@, "control"@, 0);
        lemma_not_ends_with("rightoption"@, "control"@, 0);
        lemma_not_starts_with("rightoption"@, "shift"@, 0);
        lemma_not_ends_with("rightoption"@, "shift"@, 0);
        lemma_not_starts_with("rightoption"@, "alt"@, 0);
        lemma_not_ends_with("rightoption"@, "alt"@, 0);
        lemma_not_starts_with("rightoption"@, "option"@, 0);
        lemma_not_starts_with("rightoption"@, "pause"@, 0);
        lemma_not_ends_with("rightoption"@, "pause"@, 1);
        lemma_not_starts_with("rightoption"@, "scrolllock"@, 0);
        lemma_not_ends_with("rightoption"@, "scrolllock"@, 0);
    }
    assert(key_words_fit("roption"@, TriggerKey::AltGr)) by {
        reveal_strlit("roption"); reveal_strlit("r"); reveal_strlit("right"); reveal_strlit("gr"); reveal_strlit("l"); reveal_strlit("left"); reveal_strlit("ctrl"); reveal_strlit("control"); reveal_strlit("shift"); reveal_strlit("alt"); reveal_strlit("option"); reveal_strlit("pause"); reveal_strlit("scrolllock");
        lemma_not_ends_with("roption"@, "r"@, 0);
        lemma_not_starts_with("roption"@, "right"@, 1);
        lemma_not_ends_with("roption"@, "right"@, 0);
        lemma_not_starts_with("roption"@, "gr"@, 0);
        lemma_not_ends_with("roption"@, "gr"@, 0);
        lemma_not_starts_with("roption"@, "l"@, 0);
        lemma_not_ends_with("roption"@, "l"@, 0);
        lemma_not_starts_with("roption"@, "left"@, 0);
        lemma_not_ends_with("roption"@, "left"@, 0);
        lemma_not_starts_with("roption"@, "ctrl"@, 0);
        lemma_not_ends_with("roption"@, "ctrl"@, 0);
        lemma_not_starts_with("roption"@, "control"@, 0);
        lemma_not_ends_with("roption"@, "control"@, 0);
        lemma_not_starts_with("roption"@, "shift"@, 0);
        lemma_not_ends_with("roption"@, "shift"@, 0);
        lemma_not_starts_with("roption"@, "alt"@, 0);
        lemma_not_ends_with("roption"@, "alt"@, 0);
        lemma_not_starts_with("roption"@, "option"@, 0);
        lemma_not_starts_with("roption"@, "pause"@, 0);
        lemma_not_ends_with("roption"@, "pause"@, 1);
    }
    assert(key_words_fit("rightctrl"@, TriggerKey::ControlRight)) by {
        reveal_strlit("rightctrl"); reveal_strlit("r"); reveal_strlit("right"); reveal_strlit("gr"); reveal_strlit("l"); reveal_strlit("left"); reveal_strlit("ctrl"); reveal_strlit("control"); reveal_strlit("shift"); reveal_strlit("alt"); reveal_strlit("option"); reveal_strlit("pause"); reveal_strlit("scrolllock");
        lemma_not_ends_with("rightctrl"@, "r"@, 0);
        lemma_not_ends_with("rightctrl"@, "right"@, 0);
        lemma_not_starts_with("rightctrl"@, "gr"@, 0);
        lemma_not_ends_with("rightctrl"@, "gr"@, 0);
        lemma_not_starts_with("rightctrl"@, "l"@, 0);
        lemma_not_starts_with("rightctrl"@, "left"@, 0);
        lemma_not_ends_with("rightctrl"@, "left"@, 0);
        lemma_not_starts_with("rightctrl"@, "ctrl"@, 0);
        lemma_not_starts_with("rightctrl"@, "control"@, 0);
        lemma_not_ends_with("rightctrl"@, "control"@, 0);
        lemma_not_starts_with("rightctrl"@, "shift"@, 0);
        lemma_not_ends_with("rightctrl"@, "shift"@, 0);
        lemma_not_starts_with("rightctrl"@, "alt"@, 0);
        lemma_not_ends_with("rightctrl"@, "alt"@, 0);
        lemma_not_starts_with("rightctrl"@, "option"@, 0);
        lemma_not_ends_with("rightctrl"@, "option"@, 0);
        lemma_not_starts_with("rightctrl"@, "pause"@, 0);
        lemma_not_ends_with("rightctrl"@, "pause"@, 0);
    }
    assert(key_words_fit("rctrl"@, TriggerKey::ControlRight)) by {
        reveal_strlit("rctrl"); reveal_strlit("r"); reveal_strlit("right"); reveal_strlit("gr"); reveal_strlit("l"); reveal_strlit("left"); reveal_strlit("ctrl"); reveal_strlit("control"); reveal_strlit("shift"); reveal_strlit("alt"); reveal_strlit("option"); reveal_strlit("pause"); reveal_strlit("scrolllock");
        lemma_not_ends_with("rctrl"@, "r"@, 0);
        lemma_not_starts_with("rctrl"@, "right"@, 1);
        lemma_not_ends_with("rctrl"@, "right"@, 1);
        lemma_not_starts_with("rctrl"@, "gr"@, 0);
        lemma_not_ends_with("rctrl"@, "gr"@, 0);
        lemma_not_starts_with("rctrl"@, "l"@, 0);
        lemma_not_starts_with("rctrl"@, "left"@, 0);
        lemma_not_ends_with("rctrl"@, "left"@, 0);
        lemma_not_starts_with("rctrl"@, "ctrl"@, 0);
        lemma_not_starts_with("rctrl"@, "shift"@, 0);
        lemma_not_ends_with("rctrl"@, "shift"@, 0);
        lemma_not_starts_with("rctrl"@, "alt"@, 0);
        lemma_not_ends_with("rctrl"@, "alt"@, 0);
        lemma_not_starts_with("rctrl"@, "pause"@, 0);
        lemma_not_ends_with("rctrl"@, "pause"@, 0);
    }
    assert(key_words_fit("controlright"@, TriggerKey::ControlRight)) by {
        reveal_strlit("controlright"); reveal_strlit("r"); reveal_strlit("right"); reveal_strlit("gr"); reveal_strlit("l"); reveal_strlit("left"); reveal_strlit("ctrl"); reveal_strlit("control"); reveal_strlit("shift"); reveal_strlit("alt"); reveal_strlit("option"); reveal_strlit("pause"); reveal_strlit("scrolllock");
        lemma_not_starts_with("controlright"@, "r"@, 0);
        lemma_not_ends_with("controlright"@, "r"@, 0);
        lemma_not_starts_with("controlright"@, "right"@, 0);
        lemma_not_starts_with("controlright"@, "gr"@, 0);
        lemma_not_ends_with("controlright"@, "gr"@, 0);
        lemma_not_starts_with("controlright"@, "l"@, 0);
        lemma_not_ends_with("controlright"@, "l"@, 0);
        lemma_not_starts_with("controlright"@, "left"@, 0);
        lemma_not_ends_with("controlright"@, "left"@, 0);
        lemma_not_starts_with("controlright"@, "ctrl"@, 1);
        lemma_not_ends_with("controlright"@, "ctrl"@, 0);
        lemma_not_ends_with("controlright"@, "control"@, 0);
        lemma_not_starts_with("controlright"@, "shift"@, 0);
        lemma_not_ends_with("controlright"@, "shift"@, 0);
        lemma_not_starts_with("controlright"@, "alt"@, 0);
        lemma_not_ends_with("controlright"@, "alt"@, 0);
        lemma_not_starts_with("controlright"@, "option"@, 0);
        lemma_not_ends_with("controlright"@, "option"@, 0);
        lemma_not_starts_with("controlright"@, "pause"@, 0);
        lemma_not_ends_with("controlright"@, "pause"@, 0);
        lemma_not_starts_with("controlright"@, "scrolllock"@, 0);
        lemma_not_ends_with("controlright"@, "scrolllock"@, 0);
    }
    assert(key_words_fit("leftctrl"@, TriggerKey::ControlLeft)) by {
        reveal_strlit("leftctrl"); reveal_strlit("r"); reveal_strlit("right"); reveal_strlit("gr"); reveal_strlit("l"); reveal_strlit("left"); reveal_strlit("ctrl"); reveal_strlit("control"); reveal_strlit("shift"); reveal_strlit("alt"); reveal_strlit("option"); reveal_strlit("pause"); reveal_strlit("scrolllock");
        lemma_not_starts_with("leftctrl"@, "r"@, 0);
        lemma_not_ends_with("leftctrl"@, "r"@, 0);
        lemma_not_starts_with("leftctrl"@, "right"@, 0);
        lemma_not_ends_with("leftctrl"@, "right"@, 0);
        lemma_not_starts_with("leftctrl"@, "gr"@, 0);
        lemma_not_ends_with("leftctrl"@, "gr"@, 0);
        lemma_not_ends_with("leftctrl"@, "left"@, 0);
        lemma_not_starts_with("leftctrl"@, "ctrl"@, 0);
        lemma_not_starts_with("leftctrl"@, "control"@, 0);
        lemma_not_ends_with("leftctrl"@, "control"@, 0);
        lemma_not_starts_with("leftctrl"@, "shift"@, 0);
        lemma_not_ends_with("leftctrl"@, "shift"@, 0);
        lemma_not_starts_with("leftctrl"@, "alt"@, 0);
        lemma_not_ends_with("leftctrl"@, "alt"@, 0);
        lemma_not_starts_with("leftctrl"@, "option"@, 0);
        lemma_not_ends_with("leftctrl"@, "option"@, 0);
        lemma_not_starts_with("leftctrl"@, "pause"@, 0);
        lemma_not_ends_with("leftctrl"@, "pause"@, 0);
    }
    assert(key_words_fit("lctrl"@, TriggerKey::ControlLeft)) by {
        reveal_strlit("lctrl"); reveal_strlit("r"); reveal_strlit("right"); reveal_strlit("gr"); reveal_strlit("l"); reveal_strlit("left"); reveal_strlit("ctrl"); reveal_strlit("control"); reveal_strlit("shift"); reveal_strlit("alt"); reveal_strlit("option"); reveal_strlit("pause"); reveal_strlit("scrolllock");
        lemma_not_starts_with("lctrl"@, "r"@, 0);
        lemma_not_ends_with("lctrl"@, "r"@, 0);
        lemma_not_starts_with("lctrl"@, "right"@, 0);
        lemma_not_ends_with("lctrl"@, "right"@, 0);
        lemma_not_starts_with("lctrl"@, "gr"@, 0);
        lemma_not_ends_with("lctrl"@, "gr"@, 0);
        lemma_not_starts_with("lctrl"@, "left"@, 1);
        lemma_not_ends_with("lctrl"@, "left"@, 0);
        lemma_not_starts_with("lctrl"@, "ctrl"@, 0);
        lemma_not_starts_with("lctrl"@, "shift"@, 0);
        lemma_not_ends_with("lctrl"@, "shift"@, 0);
        lemma_not_starts_with("lctrl"@, "alt"@, 0);
        lemma_not_ends_with("lctrl"@, "alt"@, 0);
        lemma_not_starts_with("lctrl"@, "pause"@, 0);
        lemma_not_ends_with("lctrl"@, "pause"@, 0);
    }
    assert(key_words_fit("controlleft"@, TriggerKey::ControlLeft)) by {
        reveal_strlit("controlleft"); reveal_strlit("r"); reveal_strlit("right"); reveal_strlit("gr"); reveal_strlit("l"); reveal_strlit("left"); reveal_strlit("ctrl"); reveal_strlit("control"); reveal_strlit("shift"); reveal_strlit("alt"); reveal_strlit("option"); reveal_strlit("pause"); reveal_strlit("scrolllock");
        lemma_not_starts_with("controlleft"@, "r"@, 0);
        lemma_not_ends_with("controlleft"@, "r"@, 0);
        lemma_not_starts_with("controlleft"@, "right"@, 0);
        lemma_not_ends_with("controlleft"@, "right"@, 0);
        lemma_not_starts_with("controlleft"@, "gr"@, 0);
        lemma_not_ends_with("controlleft"@, "gr"@, 0);
        lemma_not_starts_with("controlleft"@, "l"@, 0);
        lemma_not_ends_with("controlleft"@, "l"@, 0);
        lemma_not_starts_with("controlleft"@, "left"@, 0);
        lemma_not_starts_with("controlleft"@, "ctrl"@, 1);
        lemma_not_ends_with("controlleft"@, "ctrl"@, 0);
        lemma_not_ends_with("controlleft"@, "control"@, 0);
        lemma_not_starts_with("controlleft"@, "shift"@, 0);
        lemma_not_ends_with("controlleft"@, "shift"@, 0);
        lemma_not_starts_with("controlleft"@, "alt"@, 0);
        lemma_not_ends_with("controlleft"@, "alt"@, 0);
        lemma_not_starts_with("controlleft"@, "option"@, 0);
        lemma_not_ends_with("controlleft"@, "option"@, 1);
        lemma_not_starts_with("controlleft"@, "pause"@, 0);
        lemma_not_ends_with("controlleft"@, "pause"@, 0);
        lemma_not_starts_with("controlleft"@, "scrolllock"@, 0);
        lemma_not_ends_with("controlleft"@, "scrolllock"@, 0);
    }
    assert(key_words_fit("rightshift"@, TriggerKey::ShiftRight)) by {
        reveal_strlit("rightshift"); reveal_strlit("r"); reveal_strlit("right"); reveal_strlit("gr"); reveal_strlit("l"); reveal_strlit("left"); reveal_strlit("ctrl"); reveal_strlit("control"); reveal_strlit("shift"); reveal_strlit("alt"); reveal_strlit("option"); reveal_strlit("pause"); reveal_strlit("scrolllock");
        lemma_not_ends_with("rightshift"@, "r"@, 0);
        lemma_not_ends_with("rightshift"@, "right"@, 0);
        lemma_not_starts_with("rightshift"@, "gr"@, 0);
        lemma_not_ends_with("rightshift"@, "gr"@, 0);
        lemma_not_starts_with("rightshift"@, "l"@, 0);
        lemma_not_ends_with("rightshift"@, "l"@, 0);
        lemma_not_starts_with("rightshift"@, "left"@, 0);
        lemma_not_ends_with("rightshift"@, "left"@, 0);
        lemma_not_starts_with("rightshift"@, "ctrl"@, 0);
        lemma_not_ends_with("rightshift"@, "ctrl"@, 0);
        lemma_not_starts_with("rightshift"@, "control"@, 0);
        lemma_not_ends_with("rightshift"@, "control"@, 0);
        lemma_not_starts_with("rightshift"@, "shift"@, 0);
        lemma_not_starts_with("rightshift"@, "alt"@, 0);
        lemma_not_ends_with("rightshift"@, "alt"@, 0);
        lemma_not_starts_with("rightshift"@, "option"@, 0);
        lemma_not_ends_with("rightshift"@, "option"@, 0);
        lemma_not_starts_with("rightshift"@, "pause"@, 0);
        lemma_not_ends_with("rightshift"@, "pause"@, 0);
        lemma_not_starts_with("rightshift"@, "scrolllock"@, 0);
        lemma_not_ends_with("rightshift"@, "scrolllock"@, 0);
    }
    assert(key_words_fit("rshift"@, TriggerKey::ShiftRight)) by {
        reveal_strlit("rshift"); reveal_strlit("r"); reveal_strlit("right"); reveal_strlit("gr"); reveal_strlit("l"); reveal_strlit("left"); reveal_strlit("ctrl"); reveal_strlit("control"); reveal_strlit("shift"); reveal_strlit("alt"); reveal_strlit("option"); reveal_strlit("pause"); reveal_strlit("scrolllock");
        lemma_not_ends_with("rshift"@, "r"@, 0);
        lemma_not_starts_with("rshift"@, "right"@, 1);
        lemma_not_ends_with("rshift"@, "right"@, 0);
        lemma_not_starts_with("rshift"@, "gr"@, 0);
        lemma_not_ends_with("rshift"@, "gr"@, 0);
        lemma_not_starts_with("rshift"@, "l"@, 0);
        lemma_not_ends_with("rshift"@, "l"@, 0);
        lemma_not_starts_with("rshift"@, "left"@, 0);
        lemma_not_ends_with("rshift"@, "left"@, 0);
        lemma_not_starts_with("rshift"@, "ctrl"@, 0);
        lemma_not_ends_with("rshift"@, "ctrl"@, 0);
        lemma_not_starts_with("rshift"@, "shift"@, 0);
        lemma_not_starts_with("rshift"@, "alt"@, 0);
        lemma_not_ends_with("rshift"@, "alt"@, 0);
        lemma_not_starts_with("rshift"@, "option"@, 0);
        lemma_not_ends_with("rshift"@, "option"@, 0);
        lemma_not_starts_with("rshift"@, "pause"@, 0);
        lemma_not_ends_with("rshift"@, "pause"@, 0);
    }
    assert(key_words_fit("shiftright"@, TriggerKey::ShiftRight)) by {
        reveal_strlit("shiftright"); reveal_strlit("r"); reveal_strlit("right"); reveal_strlit("gr"); reveal_strlit("l"); reveal_strlit("left"); reveal_strlit("ctrl"); reveal_strlit("control"); reveal_strlit("shift"); reveal_strlit("alt"); reveal_strlit("option"); reveal_strlit("pause"); reveal_strlit("scrolllock");
        lemma_not_starts_with("shiftright"@, "r"@, 0);
        lemma_not_ends_with("shiftright"@, "r"@, 0);
        lemma_not_starts_with("shiftright"@, "right"@, 0);
        lemma_not_starts_with("shiftright"@, "gr"@, 0);
        lemma_not_ends_with("shiftright"@, "gr"@, 0);
        lemma_not_starts_with("shiftright"@, "l"@, 0);
        lemma_not_ends_with("shiftright"@, "l"@, 0);
        lemma_not_starts_with("shiftright"@, "left"@, 0);
        lemma_not_ends_with("shiftright"@, "left"@, 0);
        lemma_not_starts_with("shiftright"@, "ctrl"@, 0);
        lemma_not_ends_with("shiftright"@, "ctrl"@, 0);
        lemma_not_starts_with("shiftright"@, "control"@, 0);
        lemma_not_ends_with("shiftright"@, "control"@, 0);
        lemma_not_ends_with("shiftright"@, "shift"@, 0);
        lemma_not_starts_with("shiftright"@, "alt"@, 0);
        lemma_not_ends_with("shiftright"@, "alt"@, 0);
        lemma_not_starts_with("shiftright"@, "option"@, 0);
        lemma_not_ends_with("shiftright"@, "option"@, 0);
        lemma_not_starts_with("shiftright"@, "pause"@, 0);
        lemma_not_ends_with("shiftright"@, "pause"@, 0);
        lemma_not_starts_with("shiftright"@, "scrolllock"@, 1);
        lemma_not_ends_with("shiftright"@, "scrolllock"@, 1);
    }
    assert(key_words_fit("leftshift"@, TriggerKey::ShiftLeft)) by {
        reveal_strlit("leftshift"); reveal_strlit("r"); reveal_strlit("right"); reveal_strlit("gr"); reveal_strlit("l"); reveal_strlit("left"); reveal_strlit("ctrl"); reveal_strlit("control"); reveal_strlit("shift"); reveal_strlit("alt"); reveal_strlit("option"); reveal_strlit("pause"); reveal_strlit("scrolllock");
        lemma_not_starts_with("leftshift"@, "r"@, 0);
        lemma_not_ends_with("leftshift"@, "r"@, 0);
        lemma_not_starts_with("leftshift"@, "right"@, 0);
        lemma_not_ends_with("leftshift"@, "right"@, 0);
        lemma_not_starts_with("leftshift"@, "gr"@, 0);
        lemma_not_ends_with("leftshift"@, "gr"@, 0);
        lemma_not_ends_with("leftshift"@, "l"@, 0);
        lemma_not_ends_with("leftshift"@, "left"@, 0);
        lemma_not_starts_with("leftshift"@, "ctrl"@, 0);
        lemma_not_ends_with("leftshift"@, "ctrl"@, 0);
        lemma_not_starts_with("leftshift"@, "control"@, 0);
        lemma_not_ends_with("leftshift"@, "control"@, 0);
        lemma_not_starts_with("leftshift"@, "shift"@, 0);
        lemma_not_starts_with("leftshift"@, "alt"@, 0);
        lemma_not_ends_with("leftshift"@, "alt"@, 0);
        lemma_not_starts_with("leftshift"@, "option"@, 0);
        lemma_not_ends_with("leftshift"@, "option"@, 0);
        lemma_not_starts_with("leftshift"@, "pause"@, 0);
        lemma_not_ends_with("leftshift"@, "pause"@, 0);
    }
    assert(key_words_fit("lshift"@, TriggerKey::ShiftLeft)) by {
        reveal_strlit("lshift"); reveal_strlit("r"); reveal_strlit("right"); reveal_strlit("gr"); reveal_strlit("l"); reveal_strlit("left"); reveal_strlit("ctrl"); reveal_strlit("control"); reveal_strlit("shift"); reveal_strlit("alt"); reveal_strlit("option"); reveal_strlit("pause"); reveal_strlit("scrolllock");
        lemma_not_starts_with("lshift"@, "r"@, 0);
        lemma_not_ends_with("lshift"@, "r"@, 0);
        lemma_not_starts_with("lshift"@, "right"@, 0);
        lemma_not_ends_with("lshift"@, "right"@, 0);
        lemma_not_starts_with("lshift"@, "gr"@, 0);
        lemma_not_ends_with("lshift"@, "gr"@, 0);
        lemma_not_ends_with("lshift"@, "l"@, 0);
        lemma_not_starts_with("lshift"@, "left"@, 1);
        lemma_not_ends_with("lshift"@, "left"@, 0);
        lemma_not_starts_with("lshift"@, "ctrl"@, 0);
        lemma_not_ends_with("lshift"@, "ctrl"@, 0);
        lemma_not_starts_with("lshift"@, "shift"@, 0);
        lemma_not_starts_with("lshift"@, "alt"@, 0);
        lemma_not_ends_with("lshift"@, "alt"@, 0);
        lemma_not_starts_with("lshift"@, "option"@, 0);
        lemma_not_ends_with("lshift"@, "option"@, 0);
        lemma_not_starts_with("lshift"@, "pause"@, 0);
        lemma_not_ends_with("lshift"@, "pause"@, 0);
    }
    assert(key_words_fit("shiftleft"@, TriggerKey::ShiftLeft)) by {
        reveal_strlit("shiftleft"); reveal_strlit("r"); reveal_strlit("right"); reveal_strlit("gr"); reveal_strlit("l"); reveal_strlit("left"); reveal_strlit("ctrl"); reveal_strlit("control"); reveal_strlit("shift"); reveal_strlit("alt"); reveal_strlit("option"); reveal_strlit("pause"); reveal_strlit("scrolllock");
        lemma_not_starts_with("shiftleft"@, "r"@, 0);
        lemma_not_ends_with("shiftleft"@, "r"@, 0);
        lemma_not_starts_with("shiftleft"@, "right"@, 0);
        lemma_not_ends_with("shiftleft"@, "right"@, 0);
        lemma_not_starts_with("shiftleft"@, "gr"@, 0);
        lemma_not_ends_with("shiftleft"@, "gr"@, 0);
        lemma_not_starts_with("shiftleft"@, "l"@, 0);
        lemma_not_ends_with("shiftleft"@, "l"@, 0);
        lemma_not_starts_with("shiftleft"@, "left"@, 0);
        lemma_not_starts_with("shiftleft"@, "ctrl"@, 0);
        lemma_not_ends_with("shiftleft"@, "ctrl"@, 0);
        lemma_not_starts_with("shiftleft"@, "control"@, 0);
        lemma_not_ends_with("shiftleft"@, "control"@, 0);
        lemma_not_ends_with("shiftleft"@, "shift"@, 0);
        lemma_not_starts_with("shiftleft"@, "alt"@, 0);
        lemma_not_ends_with("shiftleft"@, "alt"@, 0);
        lemma_not_starts_with("shiftleft"@, "option"@, 0);
        lemma_not_ends_with("shiftleft"@, "option"@, 0);
        lemma_not_starts_with("shiftleft"@, "pause"@, 0);
        lemma_not_ends_with("shiftleft"@, "pause"@, 0);
    }
    assert(key_words_fit("pause"@, TriggerKey::Pause)) by {
        reveal_strlit("pause"); reveal_strlit("r"); reveal_strlit("right"); reveal_strlit("gr"); reveal_strlit("l"); reveal_strlit("left"); reveal_strlit("ctrl"); reveal_strlit("control"); reveal_strlit("shift"); reveal_strlit("alt"); reveal_strlit("option"); reveal_strlit("scrolllock");
        lemma_not_starts_with("pause"@, "r"@, 0);
        lemma_not_ends_with("pause"@, "r"@, 0);
        lemma_not_starts_with("pause"@, "right"@, 0);
        lemma_not_ends_with("pause"@, "right"@, 0);
        lemma_not_starts_with("pause"@, "gr"@, 0);
        lemma_not_ends_with("pause"@, "gr"@, 0);
        lemma_not_starts_with("pause"@, "l"@, 0);
        lemma_not_ends_with("pause"@, "l"@, 0);
        lemma_not_starts_with("pause"@, "left"@, 0);
        lemma_not_ends_with("pause"@, "left"@, 0);
        lemma_not_starts_with("pause"@, "ctrl"@, 0);
        lemma_not_ends_with("pause"@, "ctrl"@, 0);
        lemma_not_starts_with("pause"@, "shift"@, 0);
        lemma_not_ends_with("pause"@, "shift"@, 0);
        lemma_not_starts_with("pause"@, "alt"@, 0);
        lemma_not_ends_with("pause"@, "alt"@, 0);
    }
    assert(key_words_fit("pausebreak"@, TriggerKey::Pause)) by {
        reveal_strlit("pausebreak"); reveal_strlit("r"); reveal_strlit("right"); reveal_strlit("gr"); reveal_strlit("l"); reveal_strlit("left"); reveal_strlit("ctrl"); reveal_strlit("control"); reveal_strlit("shift"); reveal_strlit("alt"); reveal_strlit("option"); reveal_strlit("pause"); reveal_strlit("scrolllock");
        lemma_not_starts_with("pausebreak"@, "r"@, 0);
        lemma_not_ends_with("pausebreak"@, "r"@, 0);
        lemma_not_starts_with("pausebreak"@, "right"@, 0);
        lemma_not_ends_with("pausebreak"@, "right"@, 0);
        lemma_not_starts_with("pausebreak"@, "gr"@, 0);
        lemma_not_ends_with("pausebreak"@, "gr"@, 0);
        lemma_not_starts_with("pausebreak"@, "l"@, 0);
        lemma_not_ends_with("pausebreak"@, "l"@, 0);
        lemma_not_starts_with("pausebreak"@, "left"@, 0);
        lemma_not_ends_with("pausebreak"@, "left"@, 0);
        lemma_not_starts_with("pausebreak"@, "ctrl"@, 0);
        lemma_not_ends_with("pausebreak"@, "ctrl"@, 0);
        lemma_not_starts_with("pausebreak"@, "control"@, 0);
        lemma_not_ends_with("pausebreak"@, "control"@, 0);
        lemma_not_starts_with("pausebreak"@, "shift"@, 0);
        lemma_not_ends_with("pausebreak"@, "shift"@, 0);
        lemma_not_starts_with("pausebreak"@, "alt"@, 0);
        lemma_not_ends_with("pausebreak"@, "alt"@, 0);
        lemma_not_starts_with("pausebreak"@, "option"@, 0);
        lemma_not_ends_with("pausebreak"@, "option"@, 0);
        lemma_not_ends_with("pausebreak"@, "pause"@, 0);
        lemma_not_starts_with("pausebreak"@, "scrolllock"@, 0);
        lemma_not_ends_with("pausebreak"@, "scrolllock"@, 0);
    }
    assert(key_words_fit("scrolllock"@, TriggerKey::ScrollLock)) by {
        reveal_strlit("scrolllock"); reveal_strlit("r"); reveal_strlit("right"); reveal_strlit("gr"); reveal_strlit("l"); reveal_strlit("left"); reveal_strlit("ctrl"); reveal_strlit("control"); reveal_strlit("shift"); reveal_strlit("alt"); reveal_strlit("option"); reveal_strlit("pause");
        lemma_not_starts_with("scrolllock"@, "r"@, 0);
        lemma_not_ends_with("scrolllock"@, "r"@, 0);
        lemma_not_starts_with("scrolllock"@, "right"@, 0);
        lemma_not_ends_with("scrolllock"@, "right"@, 0);
        lemma_not_starts_with("scrolllock"@, "gr"@, 0);
        lemma_not_ends_with("scrolllock"@, "gr"@, 0);
        lemma_not_starts_with("scrolllock"@, "l"@, 0);
        lemma_not_ends_with("scrolllock"@, "l"@, 0);
        lemma_not_starts_with("scrolllock"@, "left"@, 0);
        lemma_not_ends_with("scrolllock"@, "left"@, 1);
        lemma_not_starts_with("scrolllock"@, "ctrl"@, 0);
        lemma_not_ends_with("scrolllock"@, "ctrl"@, 0);
        lemma_not_starts_with("scrolllock"@, "control"@, 0);
        lemma_not_ends_with("scrolllock"@, "control"@, 0);
        lemma_not_starts_with("scrolllock"@, "shift"@, 1);
        lemma_not_ends_with("scrolllock"@, "shift"@, 0);
        lemma_not_starts_with("scrolllock"@, "alt"@, 0);
        lemma_not_ends_with("scrolllock"@, "alt"@, 0);
        lemma_not_starts_with("scrolllock"@, "option"@, 0);
        lemma_not_ends_with("scrolllock"@, "option"@, 0);
        lemma_not_starts_with("scrolllock"@, "pause"@, 0);
        lemma_not_ends_with("scrolllock"@, "pause"@, 0);
    }
}

/// A flags-changed event acts exactly like a press (bit set) or release (bit clear)
/// fed to the key-hold filter, so the tap reports alternating edges too.
pub proof fn lemma_tap_is_hold_filter(down: bool, mask: u64, flags: u64)
    ensures
        ({
            let (d, a) = tap_step(down, mask, FLAGS_CHANGED, flags);
            let (h, e) = hold_step(down, (flags & mask) != 0);
            &&& d == h
            &&& (a matches TapAction::Report(x) ==> e == Some(x))
            &&& (a == TapAction::Ignore ==> e is None)
        }),
{
}

} // verus!

//! The decisions of one push-to-talk session of the console edition: whether a
//! captured recording is worth uploading, and what of the transcript is pasted.

use vstd::prelude::*;
use crate::audio::{peak_of, Recording, SILENCE_PEAK};
use crate::text::{trim, trimmed};

verus! {

/// Recordings held shorter than this (in nanoseconds) are discarded.
pub const MIN_HOLD_NANOS: u64 = 300_000_000;

/// What to do with a finished recording.
#[derive(Debug, Clone, Copy, PartialEq, Eq, Structural)]
pub enum CaptureVerdict {
    /// Too quiet: skipped, so the recogniser does not hallucinate on silence.
    Silent,
    /// The key was held too briefly.
    TooShort,
    /// Frame it as WAV and transcribe it.
    Upload,
}

/// The verdict for a recording whose key was held `held_nanos` nanoseconds.
pub open spec fn verdict_for(samples: Seq<i16>, held_nanos: u64) -> CaptureVerdict {
    if peak_of(samples) < SILENCE_PEAK {
        CaptureVerdict::Silent
    } else if held_nanos < MIN_HOLD_NANOS {
        CaptureVerdict::TooShort
    } else {
        CaptureVerdict::Upload
    }
}

/// Decides whether a finished recording is uploaded (silence is checked first).
pub fn capture_verdict(recording: &Recording, held_nanos: u64) -> (r: CaptureVerdict)
    ensures
        r == verdict_for(recording.samples@, held_nanos),
{
    if recording.is_silent() {
        CaptureVerdict::Silent
    } else if held_nanos < MIN_HOLD_NANOS {
        CaptureVerdict::TooShort
    } else {
        CaptureVerdict::Upload
    }
}

/// The text to paste for a transcript: trimmed, or nothing when that is empty.
pub fn text_to_paste(transcript: &str) -> (r: Option<String>)
    ensures
        trimmed(transcript@).len() == 0 ==> r is None,
        trimmed(transcript@).len() > 0 ==> (r matches Some(t) && t@ == trimmed(transcript@)),
{
    let t = trim(transcript);
    if t.as_str().unicode_len() == 0 {
        None
    } else {
        Some(t)
    }
}

/// Only a recording whose peak reaches the silence threshold and whose key was held
/// long enough is uploaded.
pub proof fn lemma_upload_only_loud_and_long(samples: Seq<i16>, held_nanos: u64)
    ensures
        verdict_for(samples, held_nanos) == CaptureVerdict::Upload <==> (peak_of(samples)
            >= SILENCE_PEAK && held_nanos >= MIN_HOLD_NANOS),
{
}

} // verus!

use sayso::audio::Recording;
use sayso::session::{capture_verdict, text_to_paste, CaptureVerdict};

#[test]
fn quiet_recordings_are_skipped_first() {
    let quiet = Recording { samples: vec![10, -20], sample_rate: 16000 };
    assert_eq!(capture_verdict(&quiet, 5_000_000_000), CaptureVerdict::Silent);
    assert_eq!(capture_verdict(&quiet, 1), CaptureVerdict::Silent);
}

#[test]
fn short_holds_are_skipped() {
    let loud = Recording { samples: vec![4000], sample_rate: 16000 };
    assert_eq!(capture_verdict(&loud, 299_999_999), CaptureVerdict::TooShort);
    assert_eq!(capture_verdict(&loud, 300_000_000), CaptureVerdict::Upload);
}

#[test]
fn transcript_is_trimmed_before_paste() {
    assert_eq!(text_to_paste("  hello world \n").as_deref(), Some("hello world"));
    assert_eq!(text_to_paste(" \t\u{3000} "), None);
    assert_eq!(text_to_paste(""), None);
}

use sayso::macos::stt::{filter_transcript, looks_like_hallucination, LOUD_PEAK};

#[test]
fn known_silence_phrases_are_dropped() {
    assert!(looks_like_hallucination("Thank you.", false, 30000));
    assert!(looks_like_hallucination("  感谢观看！ ", false, 30000));
    assert!(looks_like_hallucination("BYE!!", false, 100));
    assert!(looks_like_hallucination("字幕由Amara.org社区提供", false, 100));
    assert!(!looks_like_hallucination("thank you for the fix", false, 100));
}

#[test]
fn punctuation_only_is_dropped_at_any_volume() {
    assert!(looks_like_hallucination("", false, i16::MAX));
    assert!(looks_like_hallucination(" 。。…！？ ", false, i16::MAX));
    assert!(looks_like_hallucination("...", false, 0));
}

#[test]
fn low_confidence_only_drops_quiet_audio() {
    assert!(looks_like_hallucination("打开设置", true, LOUD_PEAK - 1));
    assert!(!looks_like_hallucination("打开设置", true, LOUD_PEAK));
    assert!(!looks_like_hallucination("打开设置", false, 10));
}

#[test]
fn transcript_filter_trims_or_empties() {
    assert_eq!(filter_transcript("  打开设置。 ", false, 5000), "打开设置。");
    assert_eq!(filter_transcript(" Thank you. ", false, 5000), "");
}

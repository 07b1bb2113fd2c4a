use sayso::encode::{can_encode, pcm_to_wav};

#[test]
fn produces_valid_riff_header() {
    let wav = pcm_to_wav(&[0i16; 1600], 16000).unwrap();
    assert_eq!(&wav[0..4], b"RIFF");
    assert_eq!(&wav[8..12], b"WAVE");
}

#[test]
fn wav_header_fields_are_exact() {
    let samples = [1i16, -1, 0x1234, i16::MIN];
    let wav = pcm_to_wav(&samples, 16000).unwrap();
    assert_eq!(wav.len(), 44 + 8);
    // RIFF size = 36 + data bytes
    assert_eq!(&wav[4..8], &[44u8, 0, 0, 0]);
    assert_eq!(&wav[12..16], b"fmt ");
    assert_eq!(&wav[16..20], &[16u8, 0, 0, 0]);
    // PCM, mono
    assert_eq!(&wav[20..24], &[1u8, 0, 1, 0]);
    // 16000 Hz, 32000 bytes/s
    assert_eq!(&wav[24..28], &16000u32.to_le_bytes());
    assert_eq!(&wav[28..32], &32000u32.to_le_bytes());
    // block align 2, 16 bits
    assert_eq!(&wav[32..36], &[2u8, 0, 16, 0]);
    assert_eq!(&wav[36..40], b"data");
    assert_eq!(&wav[40..44], &[8u8, 0, 0, 0]);
    assert_eq!(&wav[44..], &[1u8, 0, 0xff, 0xff, 0x34, 0x12, 0x00, 0x80]);
}

#[test]
fn wav_samples_read_back() {
    let samples: Vec<i16> = (0..500).map(|i| (i * 131 - 30000) as i16).collect();
    let wav = pcm_to_wav(&samples, 48000).unwrap();
    let back: Vec<i16> = wav[44..]
        .chunks(2)
        .map(|c| i16::from_le_bytes([c[0], c[1]]))
        .collect();
    assert_eq!(back, samples);
}

#[test]
fn empty_recording_is_a_bare_header() {
    let wav = pcm_to_wav(&[], 8000).unwrap();
    assert_eq!(wav.len(), 44);
    assert_eq!(&wav[40..44], &[0u8, 0, 0, 0]);
}

#[test]
fn encodable_limits() {
    assert!(can_encode(1600, 16000));
    assert!(!can_encode(10, 0));
    assert!(!can_encode(10, 0x8000_0000));
    assert!(can_encode(0x7FFF_FFED, 1));
    assert!(!can_encode(0x7FFF_FFEE, 1));
}

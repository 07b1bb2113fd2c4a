use sayso::audio::{append_mono_i16, append_mono_u16, Recording};

fn rec(samples: Vec<i16>) -> Recording {
    Recording { samples, sample_rate: 16000 }
}

#[test]
fn peak_is_largest_magnitude() {
    assert_eq!(rec(vec![]).peak_amplitude(), 0);
    assert_eq!(rec(vec![3, -700, 20]).peak_amplitude(), 700);
    assert_eq!(rec(vec![i16::MIN, 5]).peak_amplitude(), i16::MAX);
}

#[test]
fn silence_threshold_is_500() {
    assert!(rec(vec![499, -499]).is_silent());
    assert!(!rec(vec![0, -500]).is_silent());
    assert!(rec(vec![]).is_silent());
}

#[test]
fn stereo_i16_downmix_truncates_toward_zero() {
    let mut buf = vec![7i16];
    append_mono_i16(&mut buf, &[-3, 0, 100, 201, 5], 2);
    // frames: (-3+0)/2 = -1, (100+201)/2 = 150, short frame 5/2 = 2
    assert_eq!(buf, vec![7, -1, 150, 2]);
}

#[test]
fn mono_i16_is_copied() {
    let mut buf = Vec::new();
    append_mono_i16(&mut buf, &[1, -2, i16::MIN, i16::MAX], 1);
    assert_eq!(buf, vec![1, -2, i16::MIN, i16::MAX]);
}

#[test]
fn u16_downmix_is_centred() {
    let mut buf = Vec::new();
    append_mono_u16(&mut buf, &[0, 0, 65535, 65535, 32768, 32769], 2);
    assert_eq!(buf, vec![-32768, 32767, 0]);
}

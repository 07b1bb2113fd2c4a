use sayso::macos::audio::{append_mono_i16, append_mono_u16, Recording};

fn rec(samples: Vec<i16>) -> Recording {
    Recording { samples, sample_rate: 48000 }
}

#[test]
fn rms_is_integer_root_mean_square() {
    assert_eq!(rec(vec![]).rms_amplitude(), 0);
    // mean square (9 + 16) / 2 = 12, root 3
    assert_eq!(rec(vec![3, -4]).rms_amplitude(), 3);
    assert_eq!(rec(vec![1000; 10]).rms_amplitude(), 1000);
    assert_eq!(rec(vec![i16::MIN; 4]).rms_amplitude(), i16::MAX);
}

#[test]
fn rms_below_peak_for_a_click() {
    let mut s = vec![0i16; 999];
    s.push(20000);
    let r = rec(s);
    assert_eq!(r.peak_amplitude(), 20000);
    assert_eq!(r.rms_amplitude(), 632);
}

#[test]
fn silence_threshold_is_configurable() {
    let r = rec(vec![800, -100]);
    assert!(r.is_silent(801));
    assert!(!r.is_silent(800));
}

#[test]
fn zero_channels_read_as_mono() {
    let mut buf = Vec::new();
    append_mono_i16(&mut buf, &[4, -4], 0);
    assert_eq!(buf, vec![4, -4]);
    let mut buf = Vec::new();
    append_mono_u16(&mut buf, &[0, 65535, 32768], 0);
    assert_eq!(buf, vec![-32768, 32767, 0]);
    append_mono_u16(&mut buf, &[0, 1, 2], 3);
    assert_eq!(buf, vec![-32768, 32767, 0, -32767]);
}

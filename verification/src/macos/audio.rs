//! Captured audio of the tray edition: level measures with a configurable silence
//! threshold, an RMS level, and the down-mix that tolerates a zero channel count.

use vstd::prelude::*;
use crate::audio::{
    downmix_i16, downmix_u16, mix_i16_into, mix_u16_into, peak_of, peak_of_samples, sat_abs,
};

verus! {

/// One captured utterance: mono samples and their rate.
pub struct Recording {
    pub samples: Vec<i16>,
    pub sample_rate: u32,
}

/// Sum of the squared samples.
pub open spec fn sum_sq(s: Seq<i16>) -> int
    decreases s.len(),
{
    if s.len() == 0 {
        0
    } else {
        sum_sq(s.drop_last()) + s.last() * s.last()
    }
}

/// The RMS level: the largest `r <= i16::MAX` whose square does not exceed the mean
/// square, 0 for no samples.
pub open spec fn is_rms_of(r: i16, s: Seq<i16>) -> bool {
    if s.len() == 0 {
        r == 0
    } else {
        let q = sum_sq(s) / (s.len() as int);
        &&& 0 <= r
        &&& r * r <= q
        &&& (r == i16::MAX || q < (r + 1) * (r + 1))
    }
}

proof fn lemma_square_bound(x: i16)
    ensures
        0 <= x * x <= 1073741824,
{
    assert(0 <= x * x <= 1073741824) by (nonlinear_arith)
        requires
            -32768 <= x <= 32767,
    ;
}

/// The largest `r` in `0..=32767` with `r * r <= q`.
fn isqrt_capped(q: u128) -> (r: i16)
    ensures
        0 <= r,
        r * r <= q,
        r == i16::MAX || q < (r + 1) * (r + 1),
{
    let mut lo: u64 = 0;
    let mut hi: u64 = 32768;
    while hi - lo > 1
        invariant
            lo < hi <= 32768,
            lo * lo <= q,
            hi == 32768 || q < hi * hi,
        decreases hi - lo,
    {
        let mid = lo + (hi - lo) / 2;
        assert(mid * mid <= 32768 * 32768) by (nonlinear_arith)
            requires
                mid <= 32768,
        ;
        if (mid * mid) as u128 <= q {
            lo = mid;
        } else {
            hi = mid;
        }
    }
    assert(lo + 1 == hi);
    lo as i16
}

impl Recording {
    /// The largest sample magnitude (saturating), 0 when empty.
    pub fn peak_amplitude(&self) -> (r: i16)
        ensures
            r == peak_of(self.samples@),
    {
        peak_of_samples(self.samples.as_slice())
    }

    /// The root mean square of the samples: sustained energy, which tells speech
    /// from a lone click better than the peak does. Computed exactly in integers
    /// and rounded down (see [`is_rms_of`]).
    pub fn rms_amplitude(&self) -> (r: i16)
        ensures
            is_rms_of(r, self.samples@),
    {
        let n = self.samples.len();
        if n == 0 {
            return 0;
        }
        let mut total: u128 = 0;
        let mut i: usize = 0;
        while i < n
            invariant
                n == self.samples@.len(),
                i <= n,
                total == sum_sq(self.samples@.take(i as int)),
                total <= 1073741824 * i,
            decreases n - i,
        {
            let x = self.samples[i];
            proof {
                lemma_square_bound(x);
                assert(self.samples@.take(i + 1).drop_last() =~= self.samples@.take(i as int));
            }
            let sq = (x as i64) * (x as i64);
            total = total + sq as u128;
            i = i + 1;
        }
        assert(self.samples@.take(n as int) =~= self.samples@);
        let q = total / (n as u128);
        isqrt_capped(q)
    }

    /// True when the peak is under `threshold`: nobody spoke.
    pub fn is_silent(&self, threshold: i16) -> (b: bool)
        ensures
            b == (peak_of(self.samples@) < threshold),
    {
        self.peak_amplitude() < threshold
    }
}

/// The channel count used for the down-mix: `channels`, at least one.
pub open spec fn at_least_one(channels: usize) -> nat {
    if channels == 0 {
        1
    } else {
        channels as nat
    }
}

/// Down-mixes interleaved `i16` input and appends it to the capture buffer; a zero
/// channel count is read as one.
pub fn append_mono_i16(buf: &mut Vec<i16>, data: &[i16], channels: usize)
    requires
        channels <= 65535,
    ensures
        final(buf)@ == old(buf)@ + downmix_i16(data@, at_least_one(channels)),
{
    let ch = if channels == 0 {
        1
    } else {
        channels
    };
    mix_i16_into(buf, data, ch)
}

/// Down-mixes interleaved `u16` input (centred at 32768) and appends it; a zero
/// channel count is read as one.
pub fn append_mono_u16(buf: &mut Vec<i16>, data: &[u16], channels: usize)
    requires
        channels <= 65535,
    ensures
        final(buf)@ == old(buf)@ + downmix_u16(data@, at_least_one(channels)),
{
    let ch = if channels == 0 {
        1
    } else {
        channels
    };
    mix_u16_into(buf, data, ch)
}

/// The RMS level never exceeds the peak level.
pub proof fn lemma_rms_at_most_peak(r: i16, s: Seq<i16>)
    requires
        is_rms_of(r, s),
    ensures
        r <= peak_of(s),
{
    crate::audio::lemma_peak_is_max(s);
    let p = peak_of(s);
    if s.len() > 0 && p < i16::MAX {
        lemma_sum_sq_bound(s, p);
        let q = sum_sq(s) / (s.len() as int);
        assert(q <= p * p) by (nonlinear_arith)
            requires
                sum_sq(s) <= s.len() * (p * p),
                s.len() > 0,
                q == sum_sq(s) / (s.len() as int),
        ;
        if r > p {
            assert(r * r > p * p) by (nonlinear_arith)
                requires
                    r > p,
                    p >= 0,
            ;
        }
    }
}

proof fn lemma_sum_sq_bound(s: Seq<i16>, p: i16)
    requires
        0 <= p < i16::MAX,
        forall|i: int| 0 <= i < s.len() ==> sat_abs(#[trigger] s[i]) <= p,
    ensures
        sum_sq(s) <= s.len() * (p * p),
    decreases s.len(),
{
    if s.len() > 0 {
        let t = s.drop_last();
        assert forall|i: int| 0 <= i < t.len() implies sat_abs(#[trigger] t[i]) <= p by {
            assert(t[i] == s[i]);
        }
        lemma_sum_sq_bound(t, p);
        let x = s.last();
        assert(sat_abs(s[s.len() - 1]) <= p);
        assert(x * x <= p * p) by (nonlinear_arith)
            requires
                -p <= x <= p,
        ;
        assert(t.len() * (p * p) + p * p == s.len() * (p * p)) by (nonlinear_arith)
            requires
                t.len() + 1 == s.len(),
        ;
    }
}

} // verus!

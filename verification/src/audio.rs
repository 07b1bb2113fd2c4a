//! Captured audio: a recording's level measures, and the down-mix of
//! interleaved multi-channel input into the mono capture buffer.

use vstd::prelude::*;

verus! {

/// `i16::saturating_abs`: the magnitude of a sample, with `i16::MIN` mapped to `i16::MAX`.
pub open spec fn sat_abs(s: i16) -> i16 {
    if s == i16::MIN {
        i16::MAX
    } else if s < 0 {
        (-s) as i16
    } else {
        s
    }
}

/// The largest magnitude among `s`, or 0 for no samples.
pub open spec fn peak_of(s: Seq<i16>) -> i16
    decreases s.len(),
{
    if s.len() == 0 {
        0
    } else {
        let rest = peak_of(s.drop_last());
        let m = sat_abs(s.last());
        if m > rest {
            m
        } else {
            rest
        }
    }
}

/// Sum of the samples.
pub open spec fn sum_i16(s: Seq<i16>) -> int
    decreases s.len(),
{
    if s.len() == 0 {
        0
    } else {
        sum_i16(s.drop_last()) + s.last()
    }
}

/// Sum of the unsigned samples moved to be centred on zero (`s - 32768`).
pub open spec fn sum_u16_centred(s: Seq<u16>) -> int
    decreases s.len(),
{
    if s.len() == 0 {
        0
    } else {
        sum_u16_centred(s.drop_last()) + (s.last() - 32768)
    }
}

/// Integer division rounding toward zero, as Rust's `/` on signed integers does.
pub open spec fn trunc_div(a: int, d: int) -> int {
    if a >= 0 {
        a / d
    } else {
        -((-a) / d)
    }
}

/// Length of the first frame of interleaved data with `ch` channels.
pub open spec fn frame_len(len: nat, ch: nat) -> nat {
    if len < ch {
        len
    } else {
        ch
    }
}

/// Down-mix of interleaved signed samples: one sample per frame of `ch`
/// (the last frame may be short), the frame's sum divided by `ch`.
pub open spec fn downmix_i16(s: Seq<i16>, ch: nat) -> Seq<i16>
    recommends
        ch > 0,
    decreases s.len(),
{
    if s.len() == 0 || ch == 0 {
        Seq::empty()
    } else {
        let n = frame_len(s.len(), ch);
        seq![trunc_div(sum_i16(s.take(n as int)), ch as int) as i16] + downmix_i16(
            s.skip(n as int),
            ch,
        )
    }
}

/// Down-mix of interleaved unsigned samples, each first centred on zero.
pub open spec fn downmix_u16(s: Seq<u16>, ch: nat) -> Seq<i16>
    recommends
        ch > 0,
    decreases s.len(),
{
    if s.len() == 0 || ch == 0 {
        Seq::empty()
    } else {
        let n = frame_len(s.len(), ch);
        seq![trunc_div(sum_u16_centred(s.take(n as int)), ch as int) as i16] + downmix_u16(
            s.skip(n as int),
            ch,
        )
    }
}

/// One captured utterance: mono samples and their rate.
pub struct Recording {
    pub samples: Vec<i16>,
    pub sample_rate: u32,
}

/// The peak below which a recording counts as silence (about -36 dBFS).
pub const SILENCE_PEAK: i16 = 500;

pub fn sat_abs_exec(s: i16) -> (r: i16)
    ensures
        r == sat_abs(s),
{
    if s == i16::MIN {
        i16::MAX
    } else if s < 0 {
        -s
    } else {
        s
    }
}

/// The peak of `s` (see [`peak_of`]).
pub fn peak_of_samples(s: &[i16]) -> (r: i16)
    ensures
        r == peak_of(s@),
{
    let mut best: i16 = 0;
    let mut i: usize = 0;
    while i < s.len()
        invariant
            i <= s@.len(),
            best == peak_of(s@.take(i as int)),
        decreases s@.len() - i,
    {
        proof {
            assert(s@.take(i + 1).drop_last() =~= s@.take(i as int));
        }
        let m = sat_abs_exec(s[i]);
        if m > best {
            best = m;
        }
        i = i + 1;
    }
    assert(s@.take(s@.len() as int) =~= s@);
    best
}

impl Recording {
    /// The largest sample magnitude (saturating), 0 when empty.
    pub fn peak_amplitude(&self) -> (r: i16)
        ensures
            r == peak_of(self.samples@),
    {
        peak_of_samples(self.samples.as_slice())
    }

    /// True when the peak is under [`SILENCE_PEAK`]: nobody spoke.
    pub fn is_silent(&self) -> (b: bool)
        ensures
            b == (peak_of(self.samples@) < SILENCE_PEAK),
    {
        self.peak_amplitude() < SILENCE_PEAK
    }
}

proof fn lemma_sum_i16_step(s: Seq<i16>, j: int)
    requires
        0 <= j < s.len(),
    ensures
        sum_i16(s.take(j + 1)) == sum_i16(s.take(j)) + s[j],
{
    assert(s.take(j + 1).drop_last() =~= s.take(j));
}

proof fn lemma_sum_u16_step(s: Seq<u16>, j: int)
    requires
        0 <= j < s.len(),
    ensures
        sum_u16_centred(s.take(j + 1)) == sum_u16_centred(s.take(j)) + (s[j] - 32768),
{
    assert(s.take(j + 1).drop_last() =~= s.take(j));
}

proof fn lemma_avg_range(sum: int, m: int, ch: int)
    requires
        1 <= m <= ch,
        -32768 * m <= sum <= 32767 * m,
    ensures
        -32768 <= trunc_div(sum, ch) <= 32767,
{
    if sum >= 0 {
        assert(sum / ch <= 32767) by (nonlinear_arith)
            requires
                0 <= sum <= 32767 * m,
                1 <= m <= ch,
        ;
    } else {
        assert((-sum) / ch <= 32768) by (nonlinear_arith)
            requires
                0 < -sum <= 32768 * m,
                1 <= m <= ch,
        ;
    }
}

/// Appends the down-mix of interleaved signed input to `buf`.
pub fn mix_i16_into(buf: &mut Vec<i16>, data: &[i16], ch: usize)
    requires
        1 <= ch <= 65535,
    ensures
        final(buf)@ == old(buf)@ + downmix_i16(data@, ch as nat),
{
    let n = data.len();
    let mut pos: usize = 0;
    assert(data@.skip(0) =~= data@);
    while pos < n
        invariant
            1 <= ch <= 65535,
            n == data@.len(),
            pos <= n,
            old(buf)@ + downmix_i16(data@, ch as nat) == buf@ + downmix_i16(
                data@.skip(pos as int),
                ch as nat,
            ),
        decreases n - pos,
    {
        let end = if n - pos < ch {
            n
        } else {
            pos + ch
        };
        let ghost rest = data@.skip(pos as int);
        let ghost frame = rest.take((end - pos) as int);
        let mut acc: i32 = 0;
        let mut j: usize = pos;
        while j < end
            invariant
                pos <= j <= end <= n == data@.len(),
                end - pos <= ch <= 65535,
                rest == data@.skip(pos as int),
                frame == rest.take((end - pos) as int),
                acc == sum_i16(frame.take((j - pos) as int)),
                -32768 * (j - pos) <= acc <= 32767 * (j - pos),
            decreases end - j,
        {
            proof {
                lemma_sum_i16_step(frame, (j - pos) as int);
                assert(frame[(j - pos) as int] == data@[j as int]);
            }
            acc = acc + data[j] as i32;
            j = j + 1;
        }
        proof {
            assert(frame.take((end - pos) as int) =~= frame);
            lemma_avg_range(acc as int, (end - pos) as int, ch as int);
            assert(frame_len(rest.len(), ch as nat) == end - pos);
            assert(rest.skip((end - pos) as int) =~= data@.skip(end as int));
        }
        let avg: i32 = acc / (ch as i32);
        buf.push(avg as i16);
        proof {
            assert(downmix_i16(rest, ch as nat) == seq![
                trunc_div(sum_i16(frame), ch as int) as i16,
            ] + downmix_i16(data@.skip(end as int), ch as nat));
        }
        pos = end;
    }
    assert(data@.skip(n as int) =~= Seq::<i16>::empty());
    assert(buf@ + downmix_i16(data@.skip(n as int), ch as nat) =~= buf@);
}

/// Appends the down-mix of interleaved unsigned input to `buf`.
pub fn mix_u16_into(buf: &mut Vec<i16>, data: &[u16], ch: usize)
    requires
        1 <= ch <= 65535,
    ensures
        final(buf)@ == old(buf)@ + downmix_u16(data@, ch as nat),
{
    let n = data.len();
    let mut pos: usize = 0;
    assert(data@.skip(0) =~= data@);
    while pos < n
        invariant
            1 <= ch <= 65535,
            n == data@.len(),
            pos <= n,
            old(buf)@ + downmix_u16(data@, ch as nat) == buf@ + downmix_u16(
                data@.skip(pos as int),
                ch as nat,
            ),
        decreases n - pos,
    {
        let end = if n - pos < ch {
            n
        } else {
            pos + ch
        };
        let ghost rest = data@.skip(pos as int);
        let ghost frame = rest.take((end - pos) as int);
        let mut acc: i32 = 0;
        let mut j: usize = pos;
        while j < end
            invariant
                pos <= j <= end <= n == data@.len(),
                end - pos <= ch <= 65535,
                rest == data@.skip(pos as int),
                frame == rest.take((end - pos) as int),
                acc == sum_u16_centred(frame.take((j - pos) as int)),
                -32768 * (j - pos) <= acc <= 32767 * (j - pos),
            decreases end - j,
        {
            proof {
                lemma_sum_u16_step(frame, (j - pos) as int);
                assert(frame[(j - pos) as int] == data@[j as int]);
            }
            acc = acc + (data[j] as i32 - 32768);
            j = j + 1;
        }
        proof {
            assert(frame.take((end - pos) as int) =~= frame);
            lemma_avg_range(acc as int, (end - pos) as int, ch as int);
            assert(frame_len(rest.len(), ch as nat) == end - pos);
            assert(rest.skip((end - pos) as int) =~= data@.skip(end as int));
        }
        let avg: i32 = acc / (ch as i32);
        buf.push(avg as i16);
        proof {
            assert(downmix_u16(rest, ch as nat) == seq![
                trunc_div(sum_u16_centred(frame), ch as int) as i16,
            ] + downmix_u16(data@.skip(end as int), ch as nat));
        }
        pos = end;
    }
    assert(data@.skip(n as int) =~= Seq::<u16>::empty());
    assert(buf@ + downmix_u16(data@.skip(n as int), ch as nat) =~= buf@);
}

/// Down-mixes interleaved `i16` input with `channels` channels and appends it to
/// the capture buffer (each frame's sum divided by the channel count).
pub fn append_mono_i16(buf: &mut Vec<i16>, data: &[i16], channels: usize)
    requires
        1 <= channels <= 65535,
    ensures
        final(buf)@ == old(buf)@ + downmix_i16(data@, channels as nat),
{
    mix_i16_into(buf, data, channels)
}

/// Down-mixes interleaved `u16` input (centred at 32768) and appends it.
pub fn append_mono_u16(buf: &mut Vec<i16>, data: &[u16], channels: usize)
    requires
        1 <= channels <= 65535,
    ensures
        final(buf)@ == old(buf)@ + downmix_u16(data@, channels as nat),
{
    mix_u16_into(buf, data, channels)
}

/// The peak bounds every sample's magnitude and, for a non-empty recording, is
/// reached by one of them; it is never negative.
pub proof fn lemma_peak_is_max(s: Seq<i16>)
    ensures
        peak_of(s) >= 0,
        forall|i: int| 0 <= i < s.len() ==> sat_abs(#[trigger] s[i]) <= peak_of(s),
        s.len() > 0 ==> exists|i: int| 0 <= i < s.len() && sat_abs(s[i]) == peak_of(s),
    decreases s.len(),
{
    if s.len() > 0 {
        let t = s.drop_last();
        lemma_peak_is_max(t);
        assert forall|i: int| 0 <= i < s.len() implies sat_abs(#[trigger] s[i]) <= peak_of(s) by {
            if i < s.len() - 1 {
                assert(s[i] == t[i]);
            }
        }
        if sat_abs(s.last()) > peak_of(t) {
            assert(sat_abs(s[s.len() - 1]) == peak_of(s));
        } else if t.len() > 0 {
            let k = choose|i: int| 0 <= i < t.len() && sat_abs(t[i]) == peak_of(t);
            assert(s[k] == t[k]);
        } else {
            assert(sat_abs(s[0]) >= 0);
            assert(sat_abs(s[s.len() - 1]) == peak_of(s));
        }
    }
}

/// A recording is silent exactly when every sample's magnitude is below the threshold
/// (for a non-negative threshold).
pub proof fn lemma_silent_iff_all_quiet(s: Seq<i16>, threshold: i16)
    requires
        threshold > 0,
    ensures
        (peak_of(s) < threshold) <==> (forall|i: int|
            0 <= i < s.len() ==> #[trigger] sat_abs(s[i]) < threshold),
{
    lemma_peak_is_max(s);
}

/// Mono input is copied through unchanged by the down-mix.
pub proof fn lemma_downmix_mono_identity(s: Seq<i16>)
    ensures
        downmix_i16(s, 1) == s,
    decreases s.len(),
{
    if s.len() > 0 {
        lemma_downmix_mono_identity(s.skip(1));
        assert(s.take(1).drop_last() =~= Seq::<i16>::empty());
        assert(sum_i16(Seq::<i16>::empty()) == 0);
        assert(sum_i16(s.take(1)) == s[0]);
        assert(seq![s[0]] + s.skip(1) =~= s);
    }
}

/// The down-mix yields one sample per (possibly short) frame.
pub proof fn lemma_downmix_len(s: Seq<i16>, ch: nat)
    requires
        ch > 0,
    ensures
        downmix_i16(s, ch).len() == (s.len() + ch - 1) / (ch as int),
    decreases s.len(),
{
    if s.len() == 0 {
        assert((0 + ch - 1) / (ch as int) == 0) by (nonlinear_arith)
            requires
                ch > 0,
        ;
    } else {
        let n = frame_len(s.len(), ch);
        lemma_downmix_len(s.skip(n as int), ch);
        assert(downmix_i16(s, ch).len() == 1 + downmix_i16(s.skip(n as int), ch).len());
        if s.len() < ch {
            assert((s.len() + ch - 1) / (ch as int) == 1) by (nonlinear_arith)
                requires
                    0 < s.len() < ch,
            ;
            assert((0 + ch - 1) / (ch as int) == 0) by (nonlinear_arith)
                requires
                    ch > 0,
            ;
        } else {
            let r = (s.len() - ch) as int;
            assert((r + ch - 1) / (ch as int) + 1 == (s.len() + ch - 1) / (ch as int))
                by (nonlinear_arith)
                requires
                    r == s.len() - ch,
                    ch > 0,
            ;
        }
    }
}

} // verus!

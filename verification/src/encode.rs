//! Framing of captured PCM as a mono 16-bit WAV file, done by `hound`.
//!
//! The byte layout that `hound` writes for this format is stated in
//! [`wav_bytes`]: the canonical 44-byte RIFF header followed by the samples in
//! little-endian order.

use vstd::prelude::*;

verus! {

/// `x` as two little-endian bytes (`0 <= x < 2^16`).
pub open spec fn le16(x: int) -> Seq<u8> {
    seq![(x % 256) as u8, (x / 256) as u8]
}

/// `x` as four little-endian bytes (`0 <= x < 2^32`).
pub open spec fn le32(x: int) -> Seq<u8> {
    seq![(x % 256) as u8, ((x / 256) % 256) as u8, ((x / 65536) % 256) as u8, (x / 16777216) as u8]
}

/// The two's-complement bit pattern of a sample, as an unsigned 16-bit value.
pub open spec fn sample_bits(s: i16) -> int {
    if s < 0 {
        s + 65536
    } else {
        s as int
    }
}

/// The samples, each as two little-endian bytes.
pub open spec fn pcm_bytes(samples: Seq<i16>) -> Seq<u8> {
    Seq::new(
        2 * samples.len(),
        |j: int|
            if j % 2 == 0 {
                (sample_bits(samples[j / 2]) % 256) as u8
            } else {
                (sample_bits(samples[j / 2]) / 256) as u8
            },
    )
}

pub open spec fn tag_riff() -> Seq<u8> {
    seq![0x52u8, 0x49, 0x46, 0x46]
}

pub open spec fn tag_wave() -> Seq<u8> {
    seq![0x57u8, 0x41, 0x56, 0x45]
}

pub open spec fn tag_fmt() -> Seq<u8> {
    seq![0x66u8, 0x6d, 0x74, 0x20]
}

pub open spec fn tag_data() -> Seq<u8> {
    seq![0x64u8, 0x61, 0x74, 0x61]
}

/// The 44-byte header of a PCM, mono, 16-bit WAV file with `n` samples:
/// RIFF size, `fmt ` chunk (format 1, one channel, the rate, byte rate `2 * rate`,
/// block align 2, 16 bits) and the `data` chunk size.
pub open spec fn wav_header(n: nat, sample_rate: u32) -> Seq<u8> {
    tag_riff() + le32(36 + 2 * n as int) + tag_wave() + tag_fmt() + le32(16) + le16(1) + le16(1) + le32(
        sample_rate as int,
    ) + le32(2 * sample_rate) + le16(2) + le16(16) + tag_data() + le32(2 * n as int)
}

/// A complete mono 16-bit WAV file holding `samples` at `sample_rate`.
pub open spec fn wav_bytes(samples: Seq<i16>, sample_rate: u32) -> Seq<u8> {
    wav_header(samples.len(), sample_rate) + pcm_bytes(samples)
}

/// The inputs on which the encoder runs without panicking: a positive rate whose
/// byte rate fits in 32 bits, and a data size that keeps the RIFF size in 32 bits.
pub open spec fn encodable(n: nat, sample_rate: u32) -> bool {
    &&& 0 < sample_rate
    &&& 2 * sample_rate <= u32::MAX
    &&& 2 * n + 36 <= u32::MAX
}

/// Reads the sample at byte offset `j` of a little-endian 16-bit stream.
pub open spec fn decode_sample(lo: u8, hi: u8) -> int {
    let u = lo + 256 * hi;
    if u >= 32768 {
        u - 65536
    } else {
        u
    }
}

/// The samples held in the data chunk of a WAV file laid out as [`wav_bytes`].
pub open spec fn wav_samples(bytes: Seq<u8>) -> Seq<int> {
    Seq::new(
        ((bytes.len() - 44) / 2) as nat,
        |i: int| decode_sample(bytes[44 + 2 * i], bytes[45 + 2 * i]),
    )
}

#[verifier::external_type_specification]
#[verifier::external_body]
pub struct ExHoundError(hound::Error);

/// Writes `samples` with `hound::WavWriter` (created by `WavWriter::new` over an
/// in-memory `Cursor`, fed by `write_sample`, closed by `finalize`) for a mono,
/// 16-bit, integer `WavSpec`.
/// The contract claims what hound 3.5's source shows for that spec: the plain
/// `PCMWAVEFORMAT` header and little-endian samples, and no error, since a
/// `Cursor` over a `Vec` never fails a write and 16 bits is a supported depth.
/// Its `requires` leaves out a zero rate (hound divides by it) and sizes whose
/// 32-bit header arithmetic would overflow.
#[verifier::external_body]
fn hound_write_mono16(samples: &[i16], sample_rate: u32) -> (r: Result<Vec<u8>, hound::Error>)
    requires
        encodable(samples@.len(), sample_rate),
    ensures
        r is Ok,
        r matches Ok(bytes) ==> bytes@ == wav_bytes(samples@, sample_rate),
{
    let spec = hound::WavSpec {
        channels: 1,
        sample_rate,
        bits_per_sample: 16,
        sample_format: hound::SampleFormat::Int,
    };
    let mut cursor = std::io::Cursor::new(Vec::<u8>::new());
    let mut writer = hound::WavWriter::new(&mut cursor, spec)?;
    for &s in samples {
        writer.write_sample(s)?;
    }
    writer.finalize()?;
    Ok(cursor.into_inner())
}

/// Why a recording could not be framed as WAV.
#[derive(Debug)]
pub enum EncodeError {
    /// The WAV writer reported an error.
    Wav,
}

/// Frames mono 16-bit PCM at `sample_rate` as a WAV file.
pub fn pcm_to_wav(samples: &[i16], sample_rate: u32) -> (r: Result<Vec<u8>, EncodeError>)
    requires
        encodable(samples@.len(), sample_rate),
    ensures
        r is Ok,
        r matches Ok(bytes) ==> bytes@ == wav_bytes(samples@, sample_rate),
{
    match hound_write_mono16(samples, sample_rate) {
        Ok(bytes) => Ok(bytes),
        Err(_) => Err(EncodeError::Wav),
    }
}

/// Whether a recording of `n` samples at `sample_rate` can be framed
/// (see [`encodable`]).
pub fn can_encode(n: usize, sample_rate: u32) -> (b: bool)
    ensures
        b == encodable(n as nat, sample_rate),
{
    sample_rate > 0 && sample_rate <= 0x7FFF_FFFF && n <= 0x7FFF_FFED
}

proof fn lemma_le16(x: int)
    requires
        0 <= x < 65536,
    ensures
        (x % 256) + 256 * (x / 256) == x,
        0 <= x / 256 < 256,
{
}

/// The file starts with `RIFF`, carries `WAVE` at bytes 8..12, is 44 bytes of
/// header plus two bytes per sample, and its data chunk reads back exactly the
/// samples that were written.
pub proof fn lemma_wav_layout(samples: Seq<i16>, sample_rate: u32)
    ensures
        wav_bytes(samples, sample_rate).len() == 44 + 2 * samples.len(),
        wav_bytes(samples, sample_rate).subrange(0, 4) == tag_riff(),
        wav_bytes(samples, sample_rate).subrange(8, 12) == tag_wave(),
        wav_bytes(samples, sample_rate).subrange(36, 40) == tag_data(),
        wav_samples(wav_bytes(samples, sample_rate)) == samples.map_values(|s: i16| s as int),
{
    let b = wav_bytes(samples, sample_rate);
    let h = wav_header(samples.len(), sample_rate);
    assert(h.len() == 44);
    assert(b.subrange(0, 4) =~= tag_riff());
    assert(b.subrange(8, 12) =~= tag_wave());
    assert(b.subrange(36, 40) =~= tag_data());
    let w = wav_samples(b);
    let m = samples.map_values(|s: i16| s as int);
    assert forall|i: int| 0 <= i < samples.len() implies #[trigger] w[i] == m[i] by {
        let p = pcm_bytes(samples);
        assert(b[44 + 2 * i] == p[2 * i]);
        assert(b[45 + 2 * i] == p[2 * i + 1]);
        assert((2 * i) / 2 == i);
        assert((2 * i + 1) / 2 == i);
        assert((2 * i) % 2 == 0);
        assert((2 * i + 1) % 2 == 1);
        lemma_le16(sample_bits(samples[i]));
    }
    assert(w =~= m);
}

} // verus!

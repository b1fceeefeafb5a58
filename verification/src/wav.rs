//! Framing of the engine's raw PCM output as a WAVE file, and the check of a WAVE header.

use vstd::prelude::*;

verus! {

/// The engine's native sample rate, kept in the WAVE file.
pub const SAMPLE_RATE: u32 = 22050;

/// The engine emits mono audio.
pub const CHANNELS: u16 = 1;

/// The engine emits signed 16-bit samples.
pub const BITS_PER_SAMPLE: u16 = 16;

#[verifier::external_type_specification]
#[verifier::external_body]
pub struct ExHoundError(hound::Error);

/// Why PCM could not be framed, or a WAVE file was refused.
#[derive(Debug, PartialEq, Eq, Structural)]
pub enum WavError {
    /// The PCM is empty or holds half a sample.
    InvalidPcmLength,
    /// The WAVE writer failed.
    Encoder,
    /// The bytes are not a WAVE file that can be read.
    Unreadable,
    /// The WAVE file is not mono 16-bit audio at the engine's rate.
    UnexpectedFormat,
}

impl WavError {
    /// The text of the error.
    pub fn message(&self) -> (s: String)
        ensures
            s@ == self.spec_message(),
    {
        match self {
            WavError::InvalidPcmLength => {
                proof { reveal_strlit("engine returned invalid 16-bit PCM length"); }
                "engine returned invalid 16-bit PCM length".to_owned()
            },
            WavError::Encoder => {
                proof { reveal_strlit("WAV encoding failed"); }
                "WAV encoding failed".to_owned()
            },
            WavError::Unreadable => {
                proof { reveal_strlit("WAV data cannot be read"); }
                "WAV data cannot be read".to_owned()
            },
            WavError::UnexpectedFormat => {
                proof { reveal_strlit("unexpected WAV format"); }
                "unexpected WAV format".to_owned()
            },
        }
    }

    /// The text of each error.
    pub open spec fn spec_message(&self) -> Seq<char> {
        match self {
            WavError::InvalidPcmLength => "engine returned invalid 16-bit PCM length"@,
            WavError::Encoder => "WAV encoding failed"@,
            WavError::Unreadable => "WAV data cannot be read"@,
            WavError::UnexpectedFormat => "unexpected WAV format"@,
        }
    }
}

/// A 16-bit unsigned value in little-endian byte order.
pub open spec fn le16(x: nat) -> Seq<u8> {
    seq![(x % 256) as u8, ((x / 256) % 256) as u8]
}

/// A 32-bit unsigned value in little-endian byte order.
pub open spec fn le32(x: nat) -> Seq<u8> {
    seq![
        (x % 256) as u8,
        ((x / 256) % 256) as u8,
        ((x / 65536) % 256) as u8,
        ((x / 16777216) % 256) as u8,
    ]
}

/// The four ASCII bytes of a chunk tag.
pub open spec fn tag(a: u8, b: u8, c: u8, d: u8) -> Seq<u8> {
    seq![a, b, c, d]
}

/// The 44-byte header of a WAVE file of 16-bit integer PCM (a `RIFF` header, a 16-byte
/// PCMWAVEFORMAT `fmt ` chunk and the header of the `data` chunk) before `data_len` bytes of
/// samples.
pub open spec fn pcm16_wav_header(channels: nat, sample_rate: nat, data_len: nat) -> Seq<u8> {
    tag(82, 73, 70, 70) + le32(data_len + 36) + tag(87, 65, 86, 69) + tag(102, 109, 116, 32)
        + le32(16) + le16(1) + le16(channels) + le32(sample_rate) + le32(sample_rate * 2 * channels)
        + le16(2 * channels) + le16(16) + tag(100, 97, 116, 97) + le32(data_len)
}

/// The two's-complement little-endian bytes of a 16-bit sample.
pub open spec fn sample_bytes(s: i16) -> Seq<u8> {
    let u: int = if s < 0 { s + 65536 } else { s as int };
    seq![(u % 256) as u8, (u / 256) as u8]
}

/// The bytes of a run of 16-bit samples, each in little-endian order.
pub open spec fn samples_bytes(samples: Seq<i16>) -> Seq<u8>
    decreases samples.len(),
{
    if samples.len() == 0 {
        Seq::empty()
    } else {
        samples_bytes(samples.drop_last()) + sample_bytes(samples.last())
    }
}

/// A complete WAVE file of 16-bit integer samples.
pub open spec fn pcm16_wav(channels: nat, sample_rate: nat, samples: Seq<i16>) -> Seq<u8> {
    pcm16_wav_header(channels, sample_rate, 2 * samples.len()) + samples_bytes(samples)
}

/// The sample encoded by two little-endian bytes.
pub open spec fn sample_from_le(lo: u8, hi: u8) -> i16 {
    let u = lo + 256 * hi;
    if u >= 32768 { (u - 65536) as i16 } else { u as i16 }
}

/// The header fields (channels, sample rate, bits per sample) that hound's `WavReader` reports
/// for a byte string, or `None` where it refuses the header.
pub uninterp spec fn wav_reader_format(bytes: Seq<u8>) -> Option<(u16, u32, u16)>;

/// Encodes `samples` with hound's `WavWriter` as 16-bit integer PCM into an in-memory buffer
/// and returns the buffer after `finalize`.
///
/// Trusted: the contract says that, for at most two channels (hound then writes the
/// PCMWAVEFORMAT header), a positive rate and sizes that fit its 32-bit fields, hound succeeds
/// and writes the 44-byte header of `pcm16_wav_header` followed by the samples in
/// little-endian order, as its `write_headers`, `write_sample` and `update_header` do. The
/// writer borrows the buffer until it is finalized, so the calls stand together here.
#[verifier::external_body]
fn hound_write_pcm16(channels: u16, sample_rate: u32, samples: &[i16]) -> (r: Result<Vec<u8>, hound::Error>)
    requires
        1 <= channels <= 2,
        0 < sample_rate,
        sample_rate * 2 * channels <= u32::MAX,
        samples@.len() % (channels as nat) == 0,
        2 * samples@.len() + 36 <= u32::MAX,
    ensures
        r is Ok,
        r matches Ok(bytes) ==> bytes@ == pcm16_wav(channels as nat, sample_rate as nat, samples@),
{
    let mut buffer = std::io::Cursor::new(Vec::new());
    let spec = hound::WavSpec { channels, sample_rate, bits_per_sample: 16, sample_format: hound::SampleFormat::Int };
    let mut writer = hound::WavWriter::new(&mut buffer, spec)?;
    for sample in samples {
        writer.write_sample(*sample)?;
    }
    writer.finalize()?;
    Ok(buffer.into_inner())
}

/// Reads the header of `bytes` with hound's `WavReader::new` and returns the channels, sample
/// rate and bits per sample of its `spec()`, or `None` where the reader returns an error.
///
/// Trusted: besides naming the result, the contract says that a file laid out as
/// `pcm16_wav` writes it (one or two channels, a positive rate, whole frames) is read back
/// with those fields, as the reader's `read_wave_header`, `read_fmt_chunk` and data-length
/// checks accept such a header.
#[verifier::external_body]
fn hound_read_format(bytes: &[u8]) -> (r: Option<(u16, u32, u16)>)
    ensures
        r == wav_reader_format(bytes@),
        forall|channels: u16, sample_rate: u32, samples: Seq<i16>|
            1 <= channels <= 2 && 0 < sample_rate && sample_rate * 2 * channels <= u32::MAX
                && samples.len() % (channels as nat) == 0 && 2 * samples.len() + 36 <= u32::MAX
                && bytes@ == #[trigger] pcm16_wav(channels as nat, sample_rate as nat, samples)
                ==> r == Some((channels, sample_rate, 16u16)),
{
    match hound::WavReader::new(std::io::Cursor::new(bytes)) {
        Ok(reader) => {
            let spec = reader.spec();
            Some((spec.channels, spec.sample_rate, spec.bits_per_sample))
        },
        Err(_) => None,
    }
}

proof fn lemma_sample_roundtrip(lo: u8, hi: u8)
    ensures
        sample_bytes(sample_from_le(lo, hi)) == seq![lo, hi],
{
    let u = lo + 256 * hi;
    assert((lo + 256 * hi) % 256 == lo) by (nonlinear_arith)
        requires lo < 256, hi < 256;
    assert((lo + 256 * hi) / 256 == hi) by (nonlinear_arith)
        requires lo < 256, hi < 256;
}

fn decode_sample(lo: u8, hi: u8) -> (s: i16)
    ensures
        s == sample_from_le(lo, hi),
{
    let u: i32 = lo as i32 + 256 * (hi as i32);
    if u >= 32768 {
        (u - 65536) as i16
    } else {
        u as i16
    }
}

/// The exact WAVE file that `pcm_to_wav` makes of accepted PCM.
pub open spec fn framed_pcm(pcm: Seq<u8>) -> Seq<u8> {
    pcm16_wav_header(CHANNELS as nat, SAMPLE_RATE as nat, pcm.len()) + pcm
}

/// The layout of the framed file: 44 bytes of header, announcing one channel, the engine's
/// 22,050 Hz, 16 bits per sample and the PCM's length, then the PCM itself, unchanged.
pub proof fn lemma_framed_pcm_layout(pcm: Seq<u8>)
    ensures
        framed_pcm(pcm).len() == pcm.len() + 44,
        framed_pcm(pcm).subrange(0, 4) == tag(82, 73, 70, 70),
        framed_pcm(pcm).subrange(22, 24) == le16(1),
        framed_pcm(pcm).subrange(24, 28) == le32(22050),
        framed_pcm(pcm).subrange(34, 36) == le16(16),
        framed_pcm(pcm).subrange(40, 44) == le32(pcm.len()),
        framed_pcm(pcm).skip(44) == pcm,
{
    let f = framed_pcm(pcm);
    let h = pcm16_wav_header(1, 22050, pcm.len());
    assert(h.len() == 44);
    assert(f.subrange(0, 4) =~= tag(82, 73, 70, 70));
    assert(f.subrange(22, 24) =~= le16(1));
    assert(f.subrange(24, 28) =~= le32(22050));
    assert(f.subrange(34, 36) =~= le16(16));
    assert(f.subrange(40, 44) =~= le32(pcm.len()));
    assert(f.skip(44) =~= pcm);
}

/// `true` for PCM that the engine may have produced: a non-empty run of whole 16-bit samples.
pub open spec fn valid_pcm(pcm: Seq<u8>) -> bool {
    pcm.len() > 0 && pcm.len() % 2 == 0
}

/// Only empty PCM and PCM that ends in half a sample are refused: any other PCM, whatever its
/// length, is framed, and framing puts the PCM unchanged after a 44-byte header that
/// announces it.
pub proof fn lemma_every_whole_sample_run_is_framed(pcm: Seq<u8>)
    ensures
        valid_pcm(pcm) <==> (pcm.len() != 0 && pcm.len() % 2 != 1),
        framed_pcm(pcm).len() == 44 + pcm.len(),
        framed_pcm(pcm).take(44) == pcm16_wav_header(1, 22050, pcm.len()),
        framed_pcm(pcm).skip(44) == pcm,
{
    assert(framed_pcm(pcm).take(44) =~= pcm16_wav_header(1, 22050, pcm.len()));
    assert(framed_pcm(pcm).skip(44) =~= pcm);
}

/// The header check accepts exactly mono, 22,050 Hz, 16-bit audio; anything the reader cannot
/// read is unreadable, and any other format is unexpected.
pub proof fn lemma_header_check(format: Option<(u16, u32, u16)>)
    ensures
        format == Some((1u16, 22050u32, 16u16)) ==> expected_format(format) == Ok::<(), WavError>(()),
        format is None ==> expected_format(format) == Err::<(), WavError>(WavError::Unreadable),
        format is Some && format != Some((1u16, 22050u32, 16u16))
            ==> expected_format(format) == Err::<(), WavError>(WavError::UnexpectedFormat),
{
}

/// Wraps raw mono signed 16-bit little-endian PCM at the engine's rate in a WAVE file.
/// Empty PCM and PCM of an odd length are refused.
pub fn pcm_to_wav(pcm: &[u8]) -> (r: Result<Vec<u8>, WavError>)
    requires
        pcm@.len() + 36 <= u32::MAX,
    ensures
        !valid_pcm(pcm@) ==> r == Err::<Vec<u8>, WavError>(WavError::InvalidPcmLength),
        valid_pcm(pcm@) ==> (r matches Ok(wav) && wav@ == framed_pcm(pcm@)),
{
    let n = pcm.len();
    if n == 0 || n % 2 != 0 {
        return Err(WavError::InvalidPcmLength);
    }
    let mut samples: Vec<i16> = Vec::new();
    let mut i: usize = 0;
    while i < n / 2
        invariant
            n == pcm@.len(),
            n % 2 == 0,
            i <= n / 2,
            samples@.len() == i,
            samples_bytes(samples@) == pcm@.take(2 * i),
        decreases n / 2 - i,
    {
        let s = decode_sample(pcm[2 * i], pcm[2 * i + 1]);
        proof {
            lemma_sample_roundtrip(pcm@[2 * i], pcm@[2 * i + 1]);
        }
        let ghost before = samples@;
        samples.push(s);
        assert(samples@.drop_last() == before);
        assert(pcm@.take(2 * (i + 1)) =~= pcm@.take(2 * i) + seq![pcm@[2 * i], pcm@[2 * i + 1]]);
        i = i + 1;
    }
    assert(pcm@.take(2 * i) =~= pcm@);
    match hound_write_pcm16(CHANNELS, SAMPLE_RATE, samples.as_slice()) {
        Ok(wav) => Ok(wav),
        Err(_) => Err(WavError::Encoder),
    }
}

/// The check made of a WAVE file's header: it must be read as mono, 16-bit, at the engine's rate.
pub open spec fn expected_format(format: Option<(u16, u32, u16)>) -> Result<(), WavError> {
    match format {
        None => Err(WavError::Unreadable),
        Some((channels, rate, bits)) => if channels == CHANNELS && rate == SAMPLE_RATE
            && bits == BITS_PER_SAMPLE {
            Ok(())
        } else {
            Err(WavError::UnexpectedFormat)
        },
    }
}

/// Checks that `bytes` is a WAVE file of mono 16-bit audio at the engine's rate.
pub fn validate_wav(bytes: &[u8]) -> (r: Result<(), WavError>)
    ensures
        r == expected_format(wav_reader_format(bytes@)),
        (exists|pcm: Seq<u8>| valid_pcm(pcm) && pcm.len() + 36 <= u32::MAX && bytes@ == #[trigger] framed_pcm(pcm))
            ==> r is Ok,
{
    let format = hound_read_format(bytes);
    proof {
        if exists|pcm: Seq<u8>| valid_pcm(pcm) && pcm.len() + 36 <= u32::MAX && bytes@ == #[trigger] framed_pcm(pcm) {
            let pcm = choose|pcm: Seq<u8>| valid_pcm(pcm) && pcm.len() + 36 <= u32::MAX && bytes@ == #[trigger] framed_pcm(pcm);
            let samples = Seq::new((pcm.len() / 2) as nat, |k: int| sample_from_le(pcm[2 * k], pcm[2 * k + 1]));
            lemma_samples_of_pcm(pcm);
            assert(bytes@ == pcm16_wav(CHANNELS as nat, SAMPLE_RATE as nat, samples));
        }
    }
    check_wav_format(format)
}

/// Judges the header fields (channels, sample rate, bits per sample) that the reader reports:
/// `None` (unreadable) and any format but mono 16-bit audio at the engine's rate are refused.
pub fn check_wav_format(format: Option<(u16, u32, u16)>) -> (r: Result<(), WavError>)
    ensures
        r == expected_format(format),
{
    match format {
        None => Err(WavError::Unreadable),
        Some((channels, rate, bits)) => {
            if channels == CHANNELS && rate == SAMPLE_RATE && bits == BITS_PER_SAMPLE {
                Ok(())
            } else {
                Err(WavError::UnexpectedFormat)
            }
        },
    }
}

/// The samples of whole-sample PCM, decoded pair by pair, give back the PCM.
proof fn lemma_samples_of_pcm(pcm: Seq<u8>)
    requires
        pcm.len() % 2 == 0,
    ensures
        samples_bytes(Seq::new((pcm.len() / 2) as nat, |k: int| sample_from_le(pcm[2 * k], pcm[2 * k + 1]))) == pcm,
    decreases pcm.len(),
{
    let samples = Seq::new((pcm.len() / 2) as nat, |k: int| sample_from_le(pcm[2 * k], pcm[2 * k + 1]));
    if pcm.len() == 0 {
        assert(samples_bytes(samples) =~= pcm);
    } else {
        let front = pcm.take(pcm.len() - 2);
        lemma_samples_of_pcm(front);
        let front_samples = Seq::new((front.len() / 2) as nat, |k: int| sample_from_le(front[2 * k], front[2 * k + 1]));
        assert(samples.drop_last() =~= front_samples);
        lemma_sample_roundtrip(pcm[pcm.len() - 2], pcm[pcm.len() - 1]);
        assert(pcm =~= front + seq![pcm[pcm.len() - 2], pcm[pcm.len() - 1]]);
    }
}

} // verus!

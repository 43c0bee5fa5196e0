//! Framing a sample stream as a mono 16-bit PCM WAVE file.
//!
//! The container is written by the `hound` crate into memory. This module
//! states which bytes a finished file holds, hands the samples to the
//! encoder, and turns its outcome into the library's own result.

use vstd::prelude::*;
use crate::sine::SAMPLE_RATE;
use crate::symbol::InvalidSymbolError;

verus! {

/// Channels of the output: mono.
pub const CHANNELS: u16 = 1;

/// Bits per sample of the output.
pub const BITS_PER_SAMPLE: u16 = 16;

/// Bytes that precede the sample data in a file.
pub const HEADER_LEN: usize = 44;

/// The most samples one file can hold: its length fields are 32 bits wide
/// and count bytes.
pub const MAX_SAMPLES: usize = 2147483629;

/// Why no tone file was produced.
#[derive(Debug, Clone, Copy, PartialEq, Eq, Structural)]
pub enum ToneError {
    /// The input holds a character that is no keypad symbol.
    InvalidSymbol(InvalidSymbolError),
    /// The container could not be written: the stream is longer than a file
    /// can hold, or the encoder reported a failure.
    Io,
}

/// `hound::Error`, the encoder's failure. It is kept opaque: the library
/// tells a failure from a success and reads nothing else from it.
#[verifier::external_type_specification]
#[verifier::external_body]
pub struct ExEncoderError(hound::Error);

/// Byte number `k` of `value`, counted from the least significant.
pub open spec fn le_byte(value: int, k: int) -> u8 {
    if k == 0 {
        (value % 256) as u8
    } else if k == 1 {
        (value / 256 % 256) as u8
    } else if k == 2 {
        (value / 65536 % 256) as u8
    } else {
        (value / 16777216 % 256) as u8
    }
}

/// The header of a mono 16-bit PCM file with `data_len` bytes of samples.
/// Multi-byte fields are stored least significant byte first.
pub open spec fn wav_header(sample_rate: int, data_len: int) -> Seq<u8> {
    seq![
        // "RIFF", then the size of all that follows these eight bytes
        0x52u8, 0x49u8, 0x46u8, 0x46u8,
        le_byte(data_len + 36, 0), le_byte(data_len + 36, 1),
        le_byte(data_len + 36, 2), le_byte(data_len + 36, 3),
        // "WAVE"
        0x57u8, 0x41u8, 0x56u8, 0x45u8,
        // "fmt ", then the size of the format chunk: sixteen bytes
        0x66u8, 0x6du8, 0x74u8, 0x20u8,
        16u8, 0u8, 0u8, 0u8,
        // format tag: integer PCM
        1u8, 0u8,
        // channels
        le_byte(CHANNELS as int, 0), le_byte(CHANNELS as int, 1),
        // samples per second
        le_byte(sample_rate, 0), le_byte(sample_rate, 1),
        le_byte(sample_rate, 2), le_byte(sample_rate, 3),
        // bytes per second
        le_byte(sample_rate * 2, 0), le_byte(sample_rate * 2, 1),
        le_byte(sample_rate * 2, 2), le_byte(sample_rate * 2, 3),
        // bytes per frame
        2u8, 0u8,
        // bits per sample
        le_byte(BITS_PER_SAMPLE as int, 0), le_byte(BITS_PER_SAMPLE as int, 1),
        // "data", then the number of bytes of samples
        0x64u8, 0x61u8, 0x74u8, 0x61u8,
        le_byte(data_len, 0), le_byte(data_len, 1),
        le_byte(data_len, 2), le_byte(data_len, 3),
    ]
}

/// The samples as bytes: two per sample in two's complement, least
/// significant first.
pub open spec fn pcm_bytes(samples: Seq<i16>) -> Seq<u8> {
    Seq::new(
        2 * samples.len(),
        |i: int|
            if i % 2 == 0 {
                (samples[i / 2] as int % 256) as u8
            } else {
                (samples[i / 2] as int / 256 % 256) as u8
            },
    )
}

/// The complete file for `samples` at `sample_rate`.
pub open spec fn wav_image(samples: Seq<i16>, sample_rate: int) -> Seq<u8> {
    wav_header(sample_rate, 2 * samples.len() as int) + pcm_bytes(samples)
}

/// The 16-bit value stored least significant byte first at `at`.
pub open spec fn read_le16(bytes: Seq<u8>, at: int) -> int {
    bytes[at] as int + 256 * bytes[at + 1] as int
}

/// The 32-bit value stored least significant byte first at `at`.
pub open spec fn read_le32(bytes: Seq<u8>, at: int) -> int {
    bytes[at] as int + 256 * bytes[at + 1] as int + 65536 * bytes[at + 2] as int + 16777216
        * bytes[at + 3] as int
}

/// Sample number `i` of the data that follows the header of `bytes`.
pub open spec fn read_sample(bytes: Seq<u8>, i: int) -> int {
    let raw = read_le16(bytes, HEADER_LEN + 2 * i);
    if raw >= 32768 {
        raw - 65536
    } else {
        raw
    }
}

/// A file is its header and two bytes per sample.
pub proof fn lemma_wav_image_len(samples: Seq<i16>, sample_rate: int)
    ensures
        wav_image(samples, sample_rate).len() == HEADER_LEN + 2 * samples.len(),
        wav_header(sample_rate, 2 * samples.len() as int).len() == HEADER_LEN,
{
}

/// Read back, the header of a file declares integer PCM, one channel, the
/// sample rate it was written with, sixteen bits per sample, and a data
/// length of two bytes for each sample written; the RIFF size covers all but
/// its own eight bytes.
pub proof fn lemma_wav_header_fields(samples: Seq<i16>, sample_rate: int)
    requires
        0 <= sample_rate <= u32::MAX,
        samples.len() <= MAX_SAMPLES,
    ensures
        read_le32(wav_image(samples, sample_rate), 4) == wav_image(samples, sample_rate).len() - 8,
        read_le16(wav_image(samples, sample_rate), 20) == 1,
        read_le16(wav_image(samples, sample_rate), 22) == CHANNELS,
        read_le32(wav_image(samples, sample_rate), 24) == sample_rate,
        read_le16(wav_image(samples, sample_rate), 34) == BITS_PER_SAMPLE,
        read_le32(wav_image(samples, sample_rate), 40) == 2 * samples.len(),
{
    let data_len = 2 * samples.len() as int;
    let image = wav_image(samples, sample_rate);
    let header = wav_header(sample_rate, data_len);
    assert(header.len() == 44);
    assert forall|i: int| 0 <= i < 44 implies image[i] == header[i] by {}
    lemma_le_bytes_read_back(data_len + 36);
    lemma_le_bytes_read_back(sample_rate);
    lemma_le_bytes_read_back(data_len);
    assert(image[4] == le_byte(data_len + 36, 0));
    assert(image[5] == le_byte(data_len + 36, 1));
    assert(image[6] == le_byte(data_len + 36, 2));
    assert(image[7] == le_byte(data_len + 36, 3));
    assert(image[20] == 1 && image[21] == 0);
    assert(image[22] == 1 && image[23] == 0);
    assert(image[24] == le_byte(sample_rate, 0));
    assert(image[25] == le_byte(sample_rate, 1));
    assert(image[26] == le_byte(sample_rate, 2));
    assert(image[27] == le_byte(sample_rate, 3));
    assert(image[34] == 16 && image[35] == 0);
    assert(image[40] == le_byte(data_len, 0));
    assert(image[41] == le_byte(data_len, 1));
    assert(image[42] == le_byte(data_len, 2));
    assert(image[43] == le_byte(data_len, 3));
}

/// Read back, the data of a file is the samples that were written, in order.
pub proof fn lemma_wav_samples_read_back(samples: Seq<i16>, sample_rate: int, i: int)
    requires
        0 <= i < samples.len(),
    ensures
        read_sample(wav_image(samples, sample_rate), i) == samples[i],
{
    let image = wav_image(samples, sample_rate);
    let data = pcm_bytes(samples);
    assert(wav_header(sample_rate, 2 * samples.len() as int).len() == 44);
    assert(image[44 + 2 * i] == data[2 * i]);
    assert(image[44 + 2 * i + 1] == data[2 * i + 1]);
    assert((2 * i) % 2 == 0 && (2 * i) / 2 == i && (2 * i + 1) % 2 == 1 && (2 * i + 1) / 2 == i);
    let s = samples[i] as int;
    assert(-32768 <= s <= 32767);
}

/// The four bytes of a 32-bit value, weighted by their place, give the value.
proof fn lemma_le_bytes_read_back(value: int)
    requires
        0 <= value <= u32::MAX,
    ensures
        le_byte(value, 0) as int + 256 * le_byte(value, 1) as int + 65536 * le_byte(value, 2) as int
            + 16777216 * le_byte(value, 3) as int == value,
{
}

/// Encodes `samples` with `hound`: `WavWriter::new` on an empty in-memory
/// cursor with an integer format of the given channels, rate and bits, then
/// `WavWriter::write_sample` for every sample in order, then
/// `WavWriter::finalize`, which fills in both length fields.
///
/// Not proved, but taken from the encoder's source, for one channel of
/// sixteen-bit samples:
///
/// - The call succeeds. The encoder refuses a bit depth other than 8, 16, 24
///   or 32, a sample wider than the bit depth, and a sample count that is no
///   multiple of the channel count; none of these can occur here. Every other
///   failure is one of the sink, and a cursor over a vector grows as it is
///   written and reports none.
/// - The cursor then holds the forty-four byte header of `wav_header`
///   followed by the samples as little-endian byte pairs.
///
/// The limits keep the encoder's 32-bit byte counters and its
/// bytes-per-second product from overflowing, and its block-align division
/// from dividing by zero.
#[verifier::external_body]
fn encode_pcm16(samples: &Vec<i16>, channels: u16, sample_rate: u32, bits_per_sample: u16) -> (r:
    Result<Vec<u8>, hound::Error>)
    requires
        channels == CHANNELS,
        bits_per_sample == BITS_PER_SAMPLE,
        0 < sample_rate <= 0x7fff_ffff,
        samples@.len() <= MAX_SAMPLES,
    ensures
        r is Ok,
        r matches Ok(bytes) ==> bytes@ == wav_image(samples@, sample_rate as int),
{
    let sample_format = hound::SampleFormat::Int;
    let spec = hound::WavSpec { channels, sample_rate, bits_per_sample, sample_format };
    let mut cursor = std::io::Cursor::new(Vec::new());
    let mut writer = hound::WavWriter::new(&mut cursor, spec)?;
    for sample in samples.iter() {
        writer.write_sample(*sample)?;
    }
    writer.finalize()?;
    Ok(cursor.into_inner())
}

/// What the library returns for each outcome of the encoder: the file as it
/// is, or `ToneError::Io` for any failure.
pub fn wav_outcome(outcome: Result<Vec<u8>, hound::Error>) -> (r: Result<Vec<u8>, ToneError>)
    ensures
        outcome matches Ok(bytes) ==> r == Ok::<Vec<u8>, ToneError>(bytes),
        outcome is Err ==> r == Err::<Vec<u8>, ToneError>(ToneError::Io),
{
    match outcome {
        Ok(bytes) => Ok(bytes),
        Err(_) => Err(ToneError::Io),
    }
}

/// Frames `samples` as a complete file at `SAMPLE_RATE`. Every stream of at
/// most `MAX_SAMPLES` samples yields its file; a longer one is refused
/// without calling the encoder.
pub fn encode_wav(samples: &Vec<i16>) -> (r: Result<Vec<u8>, ToneError>)
    ensures
        samples@.len() <= MAX_SAMPLES ==> r is Ok,
        samples@.len() > MAX_SAMPLES ==> r == Err::<Vec<u8>, ToneError>(ToneError::Io),
        r matches Ok(bytes) ==> bytes@ == wav_image(samples@, SAMPLE_RATE as int),
        r matches Ok(bytes) ==> bytes@.len() == HEADER_LEN + 2 * samples@.len(),
{
    if samples.len() > MAX_SAMPLES {
        return Err(ToneError::Io);
    }
    proof {
        lemma_wav_image_len(samples@, SAMPLE_RATE as int);
    }
    wav_outcome(encode_pcm16(samples, CHANNELS, SAMPLE_RATE, BITS_PER_SAMPLE))
}

} // verus!

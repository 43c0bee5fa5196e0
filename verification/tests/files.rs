use dtmf::render::{demo_wav, keyed_wav};
use dtmf::sequence::{demo_samples, keyed_samples};
use dtmf::sine::SineTable;
use dtmf::symbol::InvalidSymbolError;
use dtmf::wav::{
    encode_wav, wav_outcome, ToneError, BITS_PER_SAMPLE, CHANNELS, HEADER_LEN, MAX_SAMPLES,
};

fn table_for_files() -> SineTable {
    let mut values = Vec::with_capacity(44100);
    for p in 0..44100u32 {
        let angle = 2.0 * std::f64::consts::PI * (p as f64) / 44100.0;
        values.push((angle.sin() * 1073741824.0).round() as i32);
    }
    SineTable::new(values).expect("a sine period")
}

fn read_back(bytes: &[u8]) -> (hound::WavSpec, u32, Vec<i16>) {
    let mut reader = hound::WavReader::new(std::io::Cursor::new(bytes)).unwrap();
    let spec = reader.spec();
    let length = reader.len();
    let samples = reader.samples::<i16>().map(|s| s.unwrap()).collect();
    (spec, length, samples)
}

#[test]
fn container_constants() {
    assert_eq!(CHANNELS, 1);
    assert_eq!(BITS_PER_SAMPLE, 16);
    assert_eq!(HEADER_LEN, 44);
    assert_eq!(MAX_SAMPLES as u64, (u32::MAX as u64 - 36) / 2);
}

#[test]
fn empty_stream_is_a_bare_header() {
    let bytes = encode_wav(&vec![]).unwrap();
    let expected: Vec<u8> = vec![
        0x52, 0x49, 0x46, 0x46, 36, 0, 0, 0, 0x57, 0x41, 0x56, 0x45, 0x66, 0x6d, 0x74, 0x20, 16, 0,
        0, 0, 1, 0, 1, 0, 0x44, 0xac, 0, 0, 0x88, 0x58, 0x01, 0, 2, 0, 16, 0, 0x64, 0x61, 0x74,
        0x61, 0, 0, 0, 0,
    ];
    assert_eq!(bytes, expected);
}

#[test]
fn samples_follow_the_header_least_significant_byte_first() {
    let samples: Vec<i16> = vec![0, 1, -1, 256, -256, 0x1234, i16::MAX, i16::MIN];
    let bytes = encode_wav(&samples).unwrap();
    assert_eq!(bytes.len(), 44 + 16);
    assert_eq!(&bytes[..4], b"RIFF");
    assert_eq!(&bytes[4..8], &[52, 0, 0, 0]);
    assert_eq!(&bytes[8..16], b"WAVEfmt ");
    assert_eq!(&bytes[36..40], b"data");
    assert_eq!(&bytes[40..44], &[16, 0, 0, 0]);
    assert_eq!(
        &bytes[44..],
        &[
            0x00, 0x00, 0x01, 0x00, 0xff, 0xff, 0x00, 0x01, 0x00, 0xff, 0x34, 0x12, 0xff, 0x7f,
            0x00, 0x80
        ]
    );
}

#[test]
fn length_fields_use_all_four_bytes() {
    let samples: Vec<i16> = vec![0; 40000];
    let bytes = encode_wav(&samples).unwrap();
    assert_eq!(bytes.len(), 44 + 80000);
    // 80036 = 0x000138a4, 80000 = 0x00013880
    assert_eq!(&bytes[4..8], &[0xa4, 0x38, 0x01, 0x00]);
    assert_eq!(&bytes[40..44], &[0x80, 0x38, 0x01, 0x00]);
}

#[test]
fn written_file_reads_back() {
    let samples: Vec<i16> = vec![3, -3, 32767, -32768, 0, 1000, -1000];
    let bytes = encode_wav(&samples).unwrap();
    let (spec, length, read) = read_back(&bytes);
    assert_eq!(spec.channels, 1);
    assert_eq!(spec.sample_rate, 44100);
    assert_eq!(spec.bits_per_sample, 16);
    assert_eq!(spec.sample_format, hound::SampleFormat::Int);
    assert_eq!(length, 7);
    assert_eq!(read, samples);
    let declared = u32::from_le_bytes([bytes[40], bytes[41], bytes[42], bytes[43]]);
    assert_eq!(declared as usize, samples.len() * 2);
}

#[test]
fn every_stream_within_the_limit_yields_its_file() {
    let streams: Vec<Vec<i16>> = vec![
        vec![],
        vec![0],
        vec![i16::MIN, i16::MAX],
        vec![-1; 4410],
        (0..20000).map(|n| (n % 2000 - 1000) as i16).collect(),
    ];
    for samples in streams {
        let encoded = encode_wav(&samples);
        assert!(encoded.is_ok());
        let bytes = encoded.unwrap();
        assert_eq!(bytes.len(), 44 + 2 * samples.len());
        let (_, length, read) = read_back(&bytes);
        assert_eq!(length as usize, samples.len());
        assert_eq!(read, samples);
    }
}

#[test]
fn every_valid_input_yields_a_file() {
    let table = table_for_files();
    for input in ["", "0", "aD", "0123456789ABCD*#", "######"] {
        let rendered = keyed_wav(&table, input);
        assert!(rendered.is_ok());
        assert_eq!(rendered.unwrap().len(), 44 + 2 * input.len() * 8820);
    }
    assert!(demo_wav(&table).is_ok());
}

#[test]
fn encoder_outcomes_map_to_the_library_result() {
    assert_eq!(wav_outcome(Ok(vec![1, 2, 3])), Ok(vec![1, 2, 3]));
    assert_eq!(wav_outcome(Ok(vec![])), Ok(vec![]));
    assert_eq!(wav_outcome(Err(hound::Error::TooWide)), Err(ToneError::Io));
    assert_eq!(wav_outcome(Err(hound::Error::Unsupported)), Err(ToneError::Io));
    assert_eq!(wav_outcome(Err(hound::Error::UnfinishedSample)), Err(ToneError::Io));
    let failure = std::io::Error::new(std::io::ErrorKind::Other, "full");
    assert_eq!(wav_outcome(Err(hound::Error::IoError(failure))), Err(ToneError::Io));
}

#[test]
fn keyed_five_file() {
    let table = table_for_files();
    let bytes = keyed_wav(&table, "5").unwrap();
    assert_eq!(bytes.len(), 44 + 8820 * 2);
    let (spec, length, read) = read_back(&bytes);
    assert_eq!(spec.channels, 1);
    assert_eq!(spec.sample_rate, 44100);
    assert_eq!(spec.bits_per_sample, 16);
    assert_eq!(length, 8820);
    assert_eq!(read, keyed_samples(&table, "5").unwrap());
    assert!(read[4410..].iter().all(|s| *s == 0));
    let declared = u32::from_le_bytes([bytes[40], bytes[41], bytes[42], bytes[43]]);
    assert_eq!(declared, 8820 * 2);
}

#[test]
fn keyed_star_hash_file() {
    let table = table_for_files();
    let bytes = keyed_wav(&table, "*#").unwrap();
    assert_eq!(bytes.len(), 44 + 2 * 8820 * 2);
    let (_, length, read) = read_back(&bytes);
    assert_eq!(length, 2 * 8820);
    assert_eq!(read, keyed_samples(&table, "*#").unwrap());
}

#[test]
fn keyed_empty_input_is_an_empty_file() {
    let table = table_for_files();
    let bytes = keyed_wav(&table, "").unwrap();
    assert_eq!(bytes.len(), 44);
    let (_, length, _) = read_back(&bytes);
    assert_eq!(length, 0);
}

#[test]
fn keyed_invalid_input_yields_no_file() {
    let table = table_for_files();
    assert_eq!(
        keyed_wav(&table, "5X"),
        Err(ToneError::InvalidSymbol(InvalidSymbolError { symbol: 'X' }))
    );
    assert_eq!(
        keyed_wav(&table, "?"),
        Err(ToneError::InvalidSymbol(InvalidSymbolError { symbol: '?' }))
    );
}

#[test]
fn demo_file() {
    let table = table_for_files();
    let bytes = demo_wav(&table).unwrap();
    assert_eq!(bytes.len(), 44 + 16 * 11025 * 2);
    let (spec, length, read) = read_back(&bytes);
    assert_eq!(spec.sample_rate, 44100);
    assert_eq!(length, 16 * 11025);
    assert_eq!(read, demo_samples(&table));
}

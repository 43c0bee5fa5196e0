use dtmf::sine::{SineTable, SAMPLE_RATE, SINE_UNIT};
use dtmf::symbol::{tone_pair, FrequencyPair};
use dtmf::synth::{mix, tone_sample, write_silence, write_tone, AMPLITUDE};

fn computed_period() -> Vec<i32> {
    let mut values = Vec::with_capacity(44100);
    for p in 0..44100u32 {
        let angle = 2.0 * std::f64::consts::PI * (p as f64) / 44100.0;
        values.push((angle.sin() * 1073741824.0).round() as i32);
    }
    values
}

fn computed_table() -> SineTable {
    SineTable::new(computed_period()).expect("a sine period")
}

fn reference_sample(pair: FrequencyPair, t: u32) -> f64 {
    let time = t as f64 / 44100.0;
    let high = (2.0 * std::f64::consts::PI * pair.high_hz as f64 * time).sin();
    let low = (2.0 * std::f64::consts::PI * pair.low_hz as f64 * time).sin();
    (high + low) / 2.0 * 32767.0
}

#[test]
fn constants_have_their_documented_values() {
    assert_eq!(SAMPLE_RATE, 44100);
    assert_eq!(SINE_UNIT, 1 << 30);
    assert_eq!(AMPLITUDE, i16::MAX);
}

#[test]
fn table_of_wrong_length_is_refused() {
    assert!(SineTable::new(vec![]).is_none());
    assert!(SineTable::new(vec![0; 44099]).is_none());
    assert!(SineTable::new(vec![0; 44101]).is_none());
    assert!(SineTable::new(vec![0; 44100]).is_some());
}

#[test]
fn table_not_starting_at_zero_is_refused() {
    let mut values = vec![0; 44100];
    values[0] = 1;
    assert!(SineTable::new(values).is_none());
}

#[test]
fn table_entry_beyond_one_is_refused() {
    let mut above = vec![0; 44100];
    above[44099] = SINE_UNIT + 1;
    assert!(SineTable::new(above).is_none());
    let mut below = vec![0; 44100];
    below[20000] = -SINE_UNIT - 1;
    assert!(SineTable::new(below).is_none());
    let mut at_limits = vec![0; 44100];
    at_limits[11025] = SINE_UNIT;
    at_limits[33075] = -SINE_UNIT;
    assert!(SineTable::new(at_limits).is_some());
}

#[test]
fn computed_period_is_accepted() {
    let values = computed_period();
    assert_eq!(values[11025], SINE_UNIT);
    assert_eq!(values[33075], -SINE_UNIT);
    assert!(SineTable::new(values).is_some());
}

#[test]
fn table_value_repeats_every_period() {
    let table = computed_table();
    let values = computed_period();
    assert_eq!(table.value(0), 0);
    assert_eq!(table.value(11025), SINE_UNIT);
    assert_eq!(table.value(44100), 0);
    assert_eq!(table.value(44100 + 11025), SINE_UNIT);
    assert_eq!(table.value(3 * 44100 + 1300), values[1300]);
    assert_eq!(table.value(u64::MAX), values[(u64::MAX % 44100) as usize]);
}

#[test]
fn mix_rounds_to_nearest_with_halves_away_from_zero() {
    assert_eq!(mix(0, 0), 0);
    assert_eq!(mix(SINE_UNIT, SINE_UNIT), 32767);
    assert_eq!(mix(-SINE_UNIT, -SINE_UNIT), -32767);
    assert_eq!(mix(SINE_UNIT, -SINE_UNIT), 0);
    // 32767 / 2 = 16383.5
    assert_eq!(mix(SINE_UNIT, 0), 16384);
    assert_eq!(mix(0, -SINE_UNIT), -16384);
    // 0.75 * 32767 = 24575.25
    assert_eq!(mix(SINE_UNIT, SINE_UNIT / 2), 24575);
    assert_eq!(mix(-SINE_UNIT / 2, -SINE_UNIT), -24575);
    // a sum rounds to one from 32767 * sum >= 2^30 on; 32767 * 32769 = 2^30 - 1
    assert_eq!(mix(32769, 0), 0);
    assert_eq!(mix(32770, 0), 1);
    assert_eq!(mix(16385, 16385), 1);
    assert_eq!(mix(-32769, 0), 0);
    assert_eq!(mix(0, -32770), -1);
}

#[test]
fn mix_clamps_to_the_sample_range() {
    assert_eq!(mix(i32::MAX, i32::MAX), i16::MAX);
    assert_eq!(mix(i32::MIN, i32::MIN), i16::MIN);
    assert_eq!(mix(i32::MAX, 0), 32767);
    assert_eq!(mix(i32::MIN, 0), -32767);
}

#[test]
fn tone_reads_the_table_at_the_phases_of_both_frequencies() {
    let pair = FrequencyPair { high_hz: 1336, low_hz: 770 };
    let mut values = vec![0; 44100];
    values[1336] = SINE_UNIT;
    values[770] = SINE_UNIT / 2;
    // sample 100: 133600 mod 44100 = 1300, 77000 mod 44100 = 32900
    values[1300] = -SINE_UNIT;
    values[32900] = -SINE_UNIT;
    let table = SineTable::new(values).expect("a sine period");
    assert_eq!(tone_sample(&table, pair, 0), 0);
    assert_eq!(tone_sample(&table, pair, 1), 24575);
    assert_eq!(tone_sample(&table, pair, 2), 0);
    assert_eq!(tone_sample(&table, pair, 100), -32767);
    // a whole second later the phases are the same
    assert_eq!(tone_sample(&table, pair, 44101), 24575);
}

#[test]
fn tone_starts_at_zero_for_every_pair() {
    let table = computed_table();
    for index in 0..16 {
        assert_eq!(tone_sample(&table, tone_pair(index), 0), 0);
    }
    assert_eq!(tone_sample(&table, FrequencyPair { high_hz: 1, low_hz: u32::MAX }, 0), 0);
    assert_eq!(tone_sample(&table, FrequencyPair { high_hz: 0, low_hz: 0 }, 0), 0);
}

#[test]
fn tone_follows_the_dual_sinusoid_formula() {
    let table = computed_table();
    for index in 0..16 {
        let pair = tone_pair(index);
        for t in 0..6615u32 {
            let sample = tone_sample(&table, pair, t) as f64;
            let exact = reference_sample(pair, t);
            assert!((sample - exact).abs() <= 0.5001, "index {} sample {}", index, t);
        }
    }
}

#[test]
fn tone_sample_known_values() {
    let table = computed_table();
    let five = tone_pair(5);
    // a quarter period of 11025 samples: sin(2 pi 1336 / 4) = 0, sin(2 pi 770 / 4) = 0
    assert_eq!(tone_sample(&table, five, 11025), 0);
    let pair = FrequencyPair { high_hz: 1, low_hz: 1 };
    assert_eq!(tone_sample(&table, pair, 11025), 32767);
    assert_eq!(tone_sample(&table, pair, 33075), -32767);
    assert_eq!(tone_sample(&table, pair, 22050), 0);
    let mixed = FrequencyPair { high_hz: 1, low_hz: 2 };
    // sin(pi / 2) = 1, sin(pi) = 0
    assert_eq!(tone_sample(&table, mixed, 11025), 16384);
}

#[test]
fn every_sample_stays_within_the_amplitude() {
    let table = computed_table();
    let pairs = [
        tone_pair(0),
        tone_pair(13),
        FrequencyPair { high_hz: 1, low_hz: 1 },
        FrequencyPair { high_hz: u32::MAX, low_hz: 12345 },
    ];
    for pair in pairs {
        for t in (0..44100u32).chain(u32::MAX - 100..=u32::MAX) {
            let sample = tone_sample(&table, pair, t);
            assert!(-32767 <= sample && sample <= 32767);
        }
    }
}

#[test]
fn written_tone_has_the_length_asked_for() {
    let table = computed_table();
    for length in [0u32, 1, 2, 4410, 6615] {
        let mut writer = Vec::new();
        write_tone(&mut writer, &table, length, tone_pair(7));
        assert_eq!(writer.len(), length as usize);
        for (t, sample) in writer.iter().enumerate() {
            assert_eq!(*sample, tone_sample(&table, tone_pair(7), t as u32));
        }
    }
}

#[test]
fn written_tone_is_appended() {
    let table = computed_table();
    let mut writer = vec![7i16, -7];
    write_tone(&mut writer, &table, 3, tone_pair(1));
    assert_eq!(writer.len(), 5);
    assert_eq!(&writer[..2], &[7, -7]);
    assert_eq!(writer[2], 0);
    assert_eq!(writer[3], tone_sample(&table, tone_pair(1), 1));
    assert_eq!(writer[4], tone_sample(&table, tone_pair(1), 2));
    assert_ne!(writer[3], 0);
}

#[test]
fn silence_is_that_many_zeros() {
    for length in [0u32, 1, 4410, 10000] {
        let mut writer = Vec::new();
        write_silence(&mut writer, length);
        assert_eq!(writer, vec![0i16; length as usize]);
    }
}

#[test]
fn silence_is_appended() {
    let mut writer = vec![5i16, 6];
    write_silence(&mut writer, 3);
    assert_eq!(writer, vec![5, 6, 0, 0, 0]);
}

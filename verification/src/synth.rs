//! Dual-sinusoid synthesis: phase, mixing, quantization, tone and silence
//! blocks.
//!
//! For sample number `t` the two sines of a pair are read from the table at
//! the phases `frequency * t mod SAMPLE_RATE`, which is exact for whole-hertz
//! frequencies. Their mean is scaled to `AMPLITUDE`, rounded to the nearest
//! integer with halves away from zero, and clamped to the sample range.

use vstd::prelude::*;
use crate::sine::{is_sine_period, SineTable, SAMPLE_RATE, SINE_UNIT};
use crate::symbol::FrequencyPair;

verus! {

/// Peak sample value: a mean sine of one is quantized to this.
pub const AMPLITUDE: i16 = 32767;

/// Position within the sine period of a tone of `frequency_hz` at sample `t`.
pub open spec fn phase(frequency_hz: int, t: int) -> int {
    (frequency_hz * t) % (SAMPLE_RATE as int)
}

/// The sum of two table values, scaled to `AMPLITUDE`, halved and rounded to
/// the nearest integer; a sum exactly between two integers goes to the one
/// farther from zero.
pub open spec fn quantize(sum: int) -> int {
    if sum >= 0 {
        (sum * AMPLITUDE + SINE_UNIT) / (2 * SINE_UNIT)
    } else {
        -((-sum * AMPLITUDE + SINE_UNIT) / (2 * SINE_UNIT))
    }
}

/// The value of the sample range nearest to `value`.
pub open spec fn clamp_sample(value: int) -> int {
    if value < i16::MIN {
        i16::MIN as int
    } else if value > i16::MAX {
        i16::MAX as int
    } else {
        value
    }
}

/// The sample for two table values.
pub open spec fn mix_value(high: int, low: int) -> int {
    clamp_sample(quantize(high + low))
}

/// Sample `t` of the tone of `pair`, read from `table`.
pub open spec fn tone_value(table: Seq<i32>, pair: FrequencyPair, t: int) -> int {
    mix_value(
        table[phase(pair.high_hz as int, t)] as int,
        table[phase(pair.low_hz as int, t)] as int,
    )
}

/// The first `length` samples of the tone of `pair`.
pub open spec fn tone_block(table: Seq<i32>, pair: FrequencyPair, length: nat) -> Seq<i16> {
    Seq::new(length, |t: int| tone_value(table, pair, t) as i16)
}

/// `length` samples of silence.
pub open spec fn silence_block(length: nat) -> Seq<i16> {
    Seq::new(length, |t: int| 0i16)
}

/// The quantized value is nearest to the exact one, and stays within the
/// amplitude whenever the sum is that of two table values.
pub proof fn lemma_quantize_nearest(sum: int)
    requires
        -2 * SINE_UNIT <= sum <= 2 * SINE_UNIT,
    ensures
        -AMPLITUDE <= quantize(sum) <= AMPLITUDE,
        -SINE_UNIT <= 2 * SINE_UNIT * quantize(sum) - sum * AMPLITUDE <= SINE_UNIT,
        quantize(-sum) == -quantize(sum),
        sum == 0 ==> quantize(sum) == 0,
{
    let unit = SINE_UNIT as int;
    let magnitude = if sum >= 0 { sum } else { -sum };
    let scaled = magnitude * AMPLITUDE + unit;
    let q = scaled / (2 * unit);
    assert(0 <= magnitude * AMPLITUDE <= 2 * unit * AMPLITUDE) by (nonlinear_arith)
        requires
            0 <= magnitude <= 2 * unit,
            AMPLITUDE == 32767,
    ;
    assert(scaled == (2 * unit) * q + scaled % (2 * unit) && 0 <= scaled % (2 * unit) < 2 * unit)
        by (nonlinear_arith)
        requires
            q == scaled / (2 * unit),
            unit > 0,
    ;
    assert(0 <= q <= 32767) by (nonlinear_arith)
        requires
            scaled == (2 * unit) * q + scaled % (2 * unit),
            0 <= scaled % (2 * unit) < 2 * unit,
            unit <= scaled <= 2 * unit * 32767 + unit,
            unit > 0,
    ;
}

/// Every sample of a tone lies within the amplitude, whatever the pair.
pub proof fn lemma_tone_value_in_range(table: Seq<i32>, pair: FrequencyPair, t: int)
    requires
        is_sine_period(table),
        0 <= t,
    ensures
        -AMPLITUDE <= tone_value(table, pair, t) <= AMPLITUDE,
        tone_value(table, pair, t) == quantize(
            table[phase(pair.high_hz as int, t)] + table[phase(pair.low_hz as int, t)],
        ),
{
    let high = table[phase(pair.high_hz as int, t)];
    let low = table[phase(pair.low_hz as int, t)];
    lemma_quantize_nearest(high + low);
}

/// A tone starts at zero: both sines are at their zero crossing at `t = 0`.
pub proof fn lemma_tone_starts_at_zero(table: Seq<i32>, pair: FrequencyPair)
    requires
        is_sine_period(table),
    ensures
        tone_value(table, pair, 0) == 0,
{
    assert(phase(pair.high_hz as int, 0) == 0);
    assert(phase(pair.low_hz as int, 0) == 0);
    lemma_quantize_nearest(0);
}

/// A tone block has exactly the length asked for, every sample within the
/// amplitude, and starts at zero when it is not empty.
pub proof fn lemma_tone_block_shape(table: Seq<i32>, pair: FrequencyPair, length: nat)
    requires
        is_sine_period(table),
    ensures
        tone_block(table, pair, length).len() == length,
        forall|t: int|
            0 <= t < length ==> -AMPLITUDE <= #[trigger] tone_block(table, pair, length)[t]
                <= AMPLITUDE,
        forall|t: int|
            0 <= t < length ==> #[trigger] tone_block(table, pair, length)[t] == tone_value(
                table,
                pair,
                t,
            ),
        length > 0 ==> tone_block(table, pair, length)[0] == 0,
{
    assert forall|t: int| 0 <= t < length implies -AMPLITUDE <= #[trigger] tone_block(
        table,
        pair,
        length,
    )[t] <= AMPLITUDE && tone_block(table, pair, length)[t] == tone_value(table, pair, t) by {
        lemma_tone_value_in_range(table, pair, t);
    }
    if length > 0 {
        lemma_tone_starts_at_zero(table, pair);
    }
}

/// A silence block has exactly the length asked for and holds only zeros.
pub proof fn lemma_silence_block_shape(length: nat)
    ensures
        silence_block(length).len() == length,
        forall|t: int| 0 <= t < length ==> #[trigger] silence_block(length)[t] == 0,
{
}

/// Rounds the scaled mean of two table values to a sample.
pub fn mix(high: i32, low: i32) -> (sample: i16)
    ensures
        sample == mix_value(high as int, low as int),
        -SINE_UNIT <= high <= SINE_UNIT && -SINE_UNIT <= low <= SINE_UNIT ==> sample == quantize(
            high + low,
        ) && -AMPLITUDE <= sample <= AMPLITUDE,
{
    let sum: i64 = high as i64 + low as i64;
    proof {
        if -SINE_UNIT <= high <= SINE_UNIT && -SINE_UNIT <= low <= SINE_UNIT {
            lemma_quantize_nearest(sum as int);
        }
    }
    let magnitude: i64 = if sum >= 0 {
        sum
    } else {
        -sum
    };
    assert(0 <= magnitude * 32767 <= 0x1_0000_0000 * 32767) by (nonlinear_arith)
        requires
            0 <= magnitude <= 0x1_0000_0000,
    ;
    let scaled: i64 = magnitude * 32767 + 1073741824;
    let rounded: i64 = scaled / 2147483648;
    let signed: i64 = if sum >= 0 {
        rounded
    } else {
        -rounded
    };
    if signed < -32768 {
        -32768
    } else if signed > 32767 {
        32767
    } else {
        signed as i16
    }
}

/// Sample `t` of the tone of `pair`.
pub fn tone_sample(table: &SineTable, pair: FrequencyPair, t: u32) -> (sample: i16)
    ensures
        sample == tone_value(table@, pair, t as int),
        -AMPLITUDE <= sample <= AMPLITUDE,
        t == 0 ==> sample == 0,
{
    assert(pair.high_hz * t <= u32::MAX * u32::MAX) by (nonlinear_arith)
        requires
            pair.high_hz <= u32::MAX,
            t <= u32::MAX,
    ;
    assert(pair.low_hz * t <= u32::MAX * u32::MAX) by (nonlinear_arith)
        requires
            pair.low_hz <= u32::MAX,
            t <= u32::MAX,
    ;
    let high: i32 = table.value(pair.high_hz as u64 * t as u64);
    let low: i32 = table.value(pair.low_hz as u64 * t as u64);
    proof {
        lemma_tone_starts_at_zero(table@, pair);
    }
    mix(high, low)
}

/// Appends `length` samples of the tone of `tone` to `writer`: exactly that
/// many, each within the amplitude, the first of them zero.
pub fn write_tone(writer: &mut Vec<i16>, table: &SineTable, length: u32, tone: FrequencyPair)
    ensures
        final(writer)@ == old(writer)@ + tone_block(table@, tone, length as nat),
        final(writer)@.len() == old(writer)@.len() + length,
        forall|t: int|
            old(writer)@.len() <= t < final(writer)@.len() ==> -AMPLITUDE
                <= #[trigger] final(writer)@[t] <= AMPLITUDE,
        length > 0 ==> final(writer)@[old(writer)@.len() as int] == 0,
{
    let mut t: u32 = 0;
    while t < length
        invariant
            t <= length,
            writer@ == old(writer)@ + tone_block(table@, tone, t as nat),
            forall|u: int|
                old(writer)@.len() <= u < writer@.len() ==> -AMPLITUDE <= #[trigger] writer@[u]
                    <= AMPLITUDE,
            t > 0 ==> writer@[old(writer)@.len() as int] == 0,
        decreases length - t,
    {
        let sample: i16 = tone_sample(table, tone, t);
        writer.push(sample);
        t += 1;
    }
}

/// Appends `length` zero samples to `writer`.
pub fn write_silence(writer: &mut Vec<i16>, length: u32)
    ensures
        final(writer)@ == old(writer)@ + silence_block(length as nat),
        final(writer)@.len() == old(writer)@.len() + length,
        forall|t: int|
            old(writer)@.len() <= t < final(writer)@.len() ==> #[trigger] final(writer)@[t] == 0,
{
    let mut t: u32 = 0;
    while t < length
        invariant
            t <= length,
            writer@ == old(writer)@ + silence_block(t as nat),
        decreases length - t,
    {
        writer.push(0);
        t += 1;
    }
}

} // verus!

//! Assembling tone and silence blocks into one sample stream.
//!
//! Each symbol contributes one tone block followed at once by one silence
//! block; blocks follow each other in input order. The keyed mode plays a
//! given input, the demo mode sweeps the whole keypad in index order.

use vstd::prelude::*;
use crate::sine::{is_sine_period, SineTable, SAMPLE_RATE};
use crate::symbol::{
    all_valid, first_invalid_at, resolved, tone_indices, tone_pair, tone_table, FrequencyPair,
    InvalidSymbolError, SYMBOL_COUNT,
};
use crate::synth::{
    lemma_tone_value_in_range, silence_block, tone_block, tone_sample, tone_value, write_silence,
    write_tone, AMPLITUDE,
};

verus! {

/// Samples of tone per symbol in keyed mode: a tenth of a second.
pub const KEYED_TONE_LEN: u32 = 4410;

/// Samples of silence after each tone in keyed mode: a tenth of a second.
pub const KEYED_GAP_LEN: u32 = 4410;

/// Samples of tone per symbol in demo mode: fifteen hundredths of a second.
pub const DEMO_TONE_LEN: u32 = 6615;

/// Samples of silence after each tone in demo mode: a tenth of a second.
pub const DEMO_GAP_LEN: u32 = 4410;

/// The block durations are the stated fractions of the sample rate.
pub proof fn lemma_block_durations()
    ensures
        KEYED_TONE_LEN == SAMPLE_RATE / 10,
        KEYED_GAP_LEN == SAMPLE_RATE / 10,
        DEMO_TONE_LEN * 100 == SAMPLE_RATE * 15,
        DEMO_GAP_LEN == SAMPLE_RATE / 10,
        DEMO_TONE_LEN + DEMO_GAP_LEN == SAMPLE_RATE / 4,
{
}

/// Sample `t` of a window that holds `tone_len` samples of tone, then
/// `gap_len` samples of silence, and ends there.
pub open spec fn window_value(
    table: Seq<i32>,
    pair: FrequencyPair,
    tone_len: nat,
    gap_len: nat,
    t: int,
) -> Option<i16> {
    if t < tone_len {
        Some(tone_value(table, pair, t) as i16)
    } else if t < tone_len + gap_len {
        Some(0i16)
    } else {
        None
    }
}

/// What one symbol contributes: its tone, then silence.
pub open spec fn symbol_block(table: Seq<i32>, pair: FrequencyPair, tone_len: nat, gap_len: nat) -> Seq<
    i16,
> {
    tone_block(table, pair, tone_len) + silence_block(gap_len)
}

/// The stream for `indices`: the block of each index, in order.
pub open spec fn sequence(table: Seq<i32>, indices: Seq<usize>, tone_len: nat, gap_len: nat) -> Seq<
    i16,
>
    decreases indices.len(),
{
    if indices.len() == 0 {
        Seq::empty()
    } else {
        sequence(table, indices.drop_last(), tone_len, gap_len) + symbol_block(
            table,
            tone_table(indices.last() as int),
            tone_len,
            gap_len,
        )
    }
}

/// The indices of the demo sweep: every keypad index once, ascending.
pub open spec fn sweep_indices() -> Seq<usize> {
    Seq::new(SYMBOL_COUNT as nat, |k: int| k as usize)
}

/// The stream of the keyed mode for `input`.
pub open spec fn keyed_stream(table: Seq<i32>, input: Seq<char>) -> Seq<i16> {
    sequence(table, resolved(input), KEYED_TONE_LEN as nat, KEYED_GAP_LEN as nat)
}

/// The stream of the demo mode.
pub open spec fn demo_stream(table: Seq<i32>) -> Seq<i16> {
    sequence(table, sweep_indices(), DEMO_TONE_LEN as nat, DEMO_GAP_LEN as nat)
}

/// A block read sample by sample is the window of its lengths.
pub proof fn lemma_block_is_window(
    table: Seq<i32>,
    pair: FrequencyPair,
    tone_len: nat,
    gap_len: nat,
    t: int,
)
    requires
        0 <= t,
    ensures
        t < tone_len + gap_len ==> window_value(table, pair, tone_len, gap_len, t) == Some(
            symbol_block(table, pair, tone_len, gap_len)[t],
        ),
        t >= tone_len + gap_len ==> window_value(table, pair, tone_len, gap_len, t) is None,
        symbol_block(table, pair, tone_len, gap_len).len() == tone_len + gap_len,
{
}

/// The stream holds one block per index and nothing else.
pub proof fn lemma_sequence_len(table: Seq<i32>, indices: Seq<usize>, tone_len: nat, gap_len: nat)
    ensures
        sequence(table, indices, tone_len, gap_len).len() == indices.len() * (tone_len + gap_len),
    decreases indices.len(),
{
    if indices.len() > 0 {
        lemma_sequence_len(table, indices.drop_last(), tone_len, gap_len);
        assert((indices.len() - 1) * (tone_len + gap_len) + (tone_len + gap_len) == indices.len() * (
        tone_len + gap_len)) by (nonlinear_arith);
    }
}

/// Appending an index appends its block.
pub proof fn lemma_sequence_push(
    table: Seq<i32>,
    indices: Seq<usize>,
    index: usize,
    tone_len: nat,
    gap_len: nat,
)
    ensures
        sequence(table, indices.push(index), tone_len, gap_len) == sequence(
            table,
            indices,
            tone_len,
            gap_len,
        ) + symbol_block(table, tone_table(index as int), tone_len, gap_len),
{
    assert(indices.push(index).drop_last() == indices);
    assert(indices.push(index).last() == index);
}

/// Blocks keep the order of the input and do not interleave: position `p` of
/// the stream lies in the block of index number `p / (tone_len + gap_len)`,
/// at offset `p % (tone_len + gap_len)` of it.
pub proof fn lemma_sequence_sample(
    table: Seq<i32>,
    indices: Seq<usize>,
    tone_len: nat,
    gap_len: nat,
    p: int,
)
    requires
        0 <= p < indices.len() * (tone_len + gap_len),
    ensures
        0 <= p / ((tone_len + gap_len) as int) < indices.len(),
        sequence(table, indices, tone_len, gap_len).len() == indices.len() * (tone_len + gap_len),
        Some(sequence(table, indices, tone_len, gap_len)[p]) == window_value(
            table,
            tone_table(indices[p / ((tone_len + gap_len) as int)] as int),
            tone_len,
            gap_len,
            p % ((tone_len + gap_len) as int),
        ),
    decreases indices.len(),
{
    let step = (tone_len + gap_len) as int;
    let count = indices.len() as int;
    lemma_sequence_len(table, indices, tone_len, gap_len);
    assert(count > 0 && step > 0) by (nonlinear_arith)
        requires
            0 <= p < count * step,
            count >= 0,
            step >= 0,
    ;
    let head = indices.drop_last();
    lemma_sequence_len(table, head, tone_len, gap_len);
    let before = (count - 1) * step;
    assert(count * step == before + step) by (nonlinear_arith)
        requires
            before == (count - 1) * step,
    ;
    if p < before {
        lemma_sequence_sample(table, head, tone_len, gap_len, p);
        assert(head[p / step] == indices[p / step]);
    } else {
        let t = p - before;
        assert(p / step == count - 1 && p % step == t) by (nonlinear_arith)
            requires
                p == (count - 1) * step + t,
                0 <= t < step,
        ;
        lemma_block_is_window(table, tone_table(indices.last() as int), tone_len, gap_len, t);
    }
}

/// Every sample of a stream lies within the amplitude.
pub proof fn lemma_sequence_in_range(
    table: Seq<i32>,
    indices: Seq<usize>,
    tone_len: nat,
    gap_len: nat,
    p: int,
)
    requires
        is_sine_period(table),
        0 <= p < indices.len() * (tone_len + gap_len),
    ensures
        -AMPLITUDE <= sequence(table, indices, tone_len, gap_len)[p] <= AMPLITUDE,
{
    let step = (tone_len + gap_len) as int;
    lemma_sequence_sample(table, indices, tone_len, gap_len, p);
    let pair = tone_table(indices[p / step] as int);
    assert(0 <= p % step < step) by (nonlinear_arith)
        requires
            0 <= p,
            step > 0,
    ;
    lemma_tone_value_in_range(table, pair, p % step);
}

/// Sample `t` of the window of `pair`, or `None` once the window has ended.
pub fn windowed_sample(
    table: &SineTable,
    pair: FrequencyPair,
    tone_len: u32,
    gap_len: u32,
    t: u64,
) -> (sample: Option<i16>)
    ensures
        sample == window_value(table@, pair, tone_len as nat, gap_len as nat, t as int),
{
    if t < tone_len as u64 {
        Some(tone_sample(table, pair, t as u32))
    } else if t < tone_len as u64 + gap_len as u64 {
        Some(0)
    } else {
        None
    }
}

/// Appends the window of `pair` to `writer`, sample by sample, until the
/// window ends.
pub fn write_window(
    writer: &mut Vec<i16>,
    table: &SineTable,
    pair: FrequencyPair,
    tone_len: u32,
    gap_len: u32,
)
    ensures
        final(writer)@ == old(writer)@ + symbol_block(
            table@,
            pair,
            tone_len as nat,
            gap_len as nat,
        ),
        final(writer)@.len() == old(writer)@.len() + tone_len + gap_len,
{
    let ghost block = symbol_block(table@, pair, tone_len as nat, gap_len as nat);
    let mut t: u64 = 0;
    loop
        invariant
            t <= tone_len + gap_len,
            block == symbol_block(table@, pair, tone_len as nat, gap_len as nat),
            writer@ == old(writer)@ + block.take(t as int),
        ensures
            t == tone_len + gap_len,
            writer@ == old(writer)@ + block.take(t as int),
        decreases tone_len + gap_len - t,
    {
        proof {
            lemma_block_is_window(table@, pair, tone_len as nat, gap_len as nat, t as int);
        }
        match windowed_sample(table, pair, tone_len, gap_len, t) {
            Some(sample) => {
                writer.push(sample);
                assert(block.take(t + 1) == block.take(t as int).push(block[t as int]));
                t += 1;
            },
            None => {
                break;
            },
        }
    }
    assert(block.take(t as int) == block);
}

/// Appends the stream for `indices` to `writer`: for each index its tone,
/// then its silence.
pub fn write_sequence(
    writer: &mut Vec<i16>,
    table: &SineTable,
    indices: &Vec<usize>,
    tone_len: u32,
    gap_len: u32,
)
    requires
        forall|k: int| 0 <= k < indices@.len() ==> #[trigger] indices@[k] < SYMBOL_COUNT,
    ensures
        final(writer)@ == old(writer)@ + sequence(
            table@,
            indices@,
            tone_len as nat,
            gap_len as nat,
        ),
        final(writer)@.len() == old(writer)@.len() + indices@.len() * (tone_len + gap_len),
{
    let mut k: usize = 0;
    while k < indices.len()
        invariant
            k <= indices@.len(),
            forall|j: int| 0 <= j < indices@.len() ==> #[trigger] indices@[j] < SYMBOL_COUNT,
            writer@ == old(writer)@ + sequence(
                table@,
                indices@.take(k as int),
                tone_len as nat,
                gap_len as nat,
            ),
        decreases indices@.len() - k,
    {
        let pair: FrequencyPair = tone_pair(indices[k]);
        proof {
            lemma_sequence_push(
                table@,
                indices@.take(k as int),
                indices@[k as int],
                tone_len as nat,
                gap_len as nat,
            );
            assert(indices@.take(k as int).push(indices@[k as int]) == indices@.take(k + 1));
        }
        write_tone(writer, table, tone_len, pair);
        write_silence(writer, gap_len);
        k += 1;
    }
    proof {
        assert(indices@.take(k as int) == indices@);
        lemma_sequence_len(table@, indices@, tone_len as nat, gap_len as nat);
    }
}

/// The keyed stream of `input`: for each symbol a tenth of a second of its
/// tone and a tenth of a second of silence. An input with a character that is
/// no keypad symbol yields no samples at all.
pub fn keyed_samples(table: &SineTable, input: &str) -> (r: Result<Vec<i16>, InvalidSymbolError>)
    ensures
        all_valid(input@) <==> r is Ok,
        r matches Ok(samples) ==> samples@ == keyed_stream(table@, input@),
        r matches Ok(samples) ==> samples@.len() == input@.len() * 2 * (SAMPLE_RATE / 10),
        r matches Err(e) ==> exists|k: int|
            first_invalid_at(input@, k) && e.symbol == #[trigger] input@[k],
{
    match tone_indices(input) {
        Ok(indices) => {
            let mut samples: Vec<i16> = Vec::new();
            write_sequence(&mut samples, table, &indices, KEYED_TONE_LEN, KEYED_GAP_LEN);
            assert(samples@ == keyed_stream(table@, input@));
            assert(input@.len() * (4410 + 4410) == input@.len() * 2 * 4410) by (nonlinear_arith);
            Ok(samples)
        },
        Err(e) => Err(e),
    }
}

/// The demo stream: every keypad index in ascending order, each with
/// fifteen hundredths of a second of tone and a tenth of a second of silence.
pub fn demo_samples(table: &SineTable) -> (samples: Vec<i16>)
    ensures
        samples@ == demo_stream(table@),
        samples@.len() == SYMBOL_COUNT * (SAMPLE_RATE / 4),
{
    let mut samples: Vec<i16> = Vec::new();
    let mut index: usize = 0;
    while index < SYMBOL_COUNT
        invariant
            index <= SYMBOL_COUNT,
            samples@ == sequence(
                table@,
                sweep_indices().take(index as int),
                DEMO_TONE_LEN as nat,
                DEMO_GAP_LEN as nat,
            ),
        decreases SYMBOL_COUNT - index,
    {
        let pair: FrequencyPair = tone_pair(index);
        proof {
            lemma_sequence_push(
                table@,
                sweep_indices().take(index as int),
                index,
                DEMO_TONE_LEN as nat,
                DEMO_GAP_LEN as nat,
            );
            assert(sweep_indices().take(index as int).push(index) == sweep_indices().take(
                index + 1,
            ));
        }
        write_window(&mut samples, table, pair, DEMO_TONE_LEN, DEMO_GAP_LEN);
        index += 1;
    }
    proof {
        assert(sweep_indices().take(index as int) == sweep_indices());
        lemma_sequence_len(table@, sweep_indices(), DEMO_TONE_LEN as nat, DEMO_GAP_LEN as nat);
    }
    samples
}

} // verus!

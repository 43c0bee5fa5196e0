//! From an input to the bytes of its tone file.
//!
//! Nothing here touches a file: the caller decides where the bytes go. An
//! input is resolved as a whole before any sample is made, so an invalid
//! input never yields a partial file.

use vstd::prelude::*;
use crate::sequence::{demo_samples, demo_stream, keyed_samples, keyed_stream};
use crate::sine::{SineTable, SAMPLE_RATE};
use crate::symbol::{all_valid, first_invalid_at, InvalidSymbolError, SYMBOL_COUNT};
use crate::wav::{encode_wav, wav_image, ToneError, HEADER_LEN, MAX_SAMPLES};

verus! {

/// The tone file that plays `input` in keyed mode.
///
/// An input with a character that is no keypad symbol is refused with the
/// first such character. Every valid input whose stream fits in one file
/// yields that file; a longer one is refused with `ToneError::Io`.
pub fn keyed_wav(table: &SineTable, input: &str) -> (r: Result<Vec<u8>, ToneError>)
    ensures
        !all_valid(input@) ==> exists|k: int|
            first_invalid_at(input@, k) && r == Err::<Vec<u8>, ToneError>(
                ToneError::InvalidSymbol(InvalidSymbolError { symbol: #[trigger] input@[k] }),
            ),
        all_valid(input@) && input@.len() * 2 * (SAMPLE_RATE / 10) <= MAX_SAMPLES ==> r is Ok,
        all_valid(input@) && input@.len() * 2 * (SAMPLE_RATE / 10) > MAX_SAMPLES ==> r == Err::<
            Vec<u8>,
            ToneError,
        >(ToneError::Io),
        r matches Ok(bytes) ==> bytes@ == wav_image(
            keyed_stream(table@, input@),
            SAMPLE_RATE as int,
        ),
        r matches Ok(bytes) ==> bytes@.len() == HEADER_LEN + 2 * (input@.len() * 2 * (SAMPLE_RATE
            / 10)),
{
    match keyed_samples(table, input) {
        Ok(samples) => encode_wav(&samples),
        Err(e) => {
            proof {
                let k = choose|k: int|
                    first_invalid_at(input@, k) && e.symbol == #[trigger] input@[k];
                assert(e == InvalidSymbolError { symbol: input@[k] });
            }
            Err(ToneError::InvalidSymbol(e))
        },
    }
}

/// The tone file of the demo mode: the whole keypad in index order. The
/// sweep always fits in one file, so the file is always produced.
pub fn demo_wav(table: &SineTable) -> (r: Result<Vec<u8>, ToneError>)
    ensures
        r is Ok,
        r matches Ok(bytes) ==> bytes@ == wav_image(demo_stream(table@), SAMPLE_RATE as int),
        r matches Ok(bytes) ==> bytes@.len() == HEADER_LEN + 2 * (SYMBOL_COUNT * (SAMPLE_RATE / 4)),
{
    let samples: Vec<i16> = demo_samples(table);
    encode_wav(&samples)
}

} // verus!

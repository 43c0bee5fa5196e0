//! The keypad alphabet: symbols, their indices and their frequency pairs.

use vstd::prelude::*;

verus! {

/// Number of symbols on the keypad.
pub const SYMBOL_COUNT: usize = 16;

/// A character that is not one of the sixteen keypad symbols.
#[derive(Debug, Clone, Copy, PartialEq, Eq, Structural)]
pub struct InvalidSymbolError {
    /// The offending character.
    pub symbol: char,
}

/// The two frequencies that sound together for one key, in hertz.
#[derive(Debug, Clone, Copy, PartialEq, Eq, Structural)]
pub struct FrequencyPair {
    /// Frequency of the key's column (the high group).
    pub high_hz: u32,
    /// Frequency of the key's row (the low group).
    pub low_hz: u32,
}

/// The index of each keypad symbol: digits by their value, then the letters
/// `A` to `D` in either case, then `*` and `#`.
pub open spec fn symbol_index(c: char) -> Option<usize> {
    if c == '0' {
        Some(0)
    } else if c == '1' {
        Some(1)
    } else if c == '2' {
        Some(2)
    } else if c == '3' {
        Some(3)
    } else if c == '4' {
        Some(4)
    } else if c == '5' {
        Some(5)
    } else if c == '6' {
        Some(6)
    } else if c == '7' {
        Some(7)
    } else if c == '8' {
        Some(8)
    } else if c == '9' {
        Some(9)
    } else if c == 'a' || c == 'A' {
        Some(10)
    } else if c == 'b' || c == 'B' {
        Some(11)
    } else if c == 'c' || c == 'C' {
        Some(12)
    } else if c == 'd' || c == 'D' {
        Some(13)
    } else if c == '*' {
        Some(14)
    } else if c == '#' {
        Some(15)
    } else {
        None
    }
}

/// Resolves one character to its keypad index, or reports it as invalid.
pub fn tone_index(c: char) -> (r: Result<usize, InvalidSymbolError>)
    ensures
        symbol_index(c) matches Some(i) ==> r == Ok::<usize, InvalidSymbolError>(i),
        symbol_index(c) is None ==> r == Err::<usize, InvalidSymbolError>(
            InvalidSymbolError { symbol: c },
        ),
        r matches Ok(i) ==> i < SYMBOL_COUNT,
{
    if '0' <= c && c <= '9' {
        let digit: u32 = c as u32 - '0' as u32;
        Ok(digit as usize)
    } else {
        match c {
            'a' | 'A' => Ok(10),
            'b' | 'B' => Ok(11),
            'c' | 'C' => Ok(12),
            'd' | 'D' => Ok(13),
            '*' => Ok(14),
            '#' => Ok(15),
            _ => Err(InvalidSymbolError { symbol: c }),
        }
    }
}

/// The frequency pair of each keypad index.
pub open spec fn tone_table(index: int) -> FrequencyPair {
    if index == 0 {
        FrequencyPair { high_hz: 1336, low_hz: 941 }
    } else if index == 1 {
        FrequencyPair { high_hz: 1209, low_hz: 697 }
    } else if index == 2 {
        FrequencyPair { high_hz: 1336, low_hz: 697 }
    } else if index == 3 {
        FrequencyPair { high_hz: 1477, low_hz: 697 }
    } else if index == 4 {
        FrequencyPair { high_hz: 1209, low_hz: 770 }
    } else if index == 5 {
        FrequencyPair { high_hz: 1336, low_hz: 770 }
    } else if index == 6 {
        FrequencyPair { high_hz: 1477, low_hz: 770 }
    } else if index == 7 {
        FrequencyPair { high_hz: 1209, low_hz: 852 }
    } else if index == 8 {
        FrequencyPair { high_hz: 1336, low_hz: 852 }
    } else if index == 9 {
        FrequencyPair { high_hz: 1477, low_hz: 852 }
    } else if index == 10 {
        FrequencyPair { high_hz: 1633, low_hz: 697 }
    } else if index == 11 {
        FrequencyPair { high_hz: 1633, low_hz: 770 }
    } else if index == 12 {
        FrequencyPair { high_hz: 1633, low_hz: 852 }
    } else if index == 13 {
        FrequencyPair { high_hz: 1633, low_hz: 941 }
    } else if index == 14 {
        FrequencyPair { high_hz: 1209, low_hz: 941 }
    } else {
        FrequencyPair { high_hz: 1477, low_hz: 941 }
    }
}

/// Frequency of keypad row `row`, counted from the top.
pub open spec fn row_hz(row: int) -> int {
    if row == 0 {
        697
    } else if row == 1 {
        770
    } else if row == 2 {
        852
    } else {
        941
    }
}

/// Frequency of keypad column `column`, counted from the left.
pub open spec fn column_hz(column: int) -> int {
    if column == 0 {
        1209
    } else if column == 1 {
        1336
    } else if column == 2 {
        1477
    } else {
        1633
    }
}

/// The symbol printed on the key at `row` and `column` of the keypad:
/// `1 2 3 A`, `4 5 6 B`, `7 8 9 C`, `* 0 # D`.
pub open spec fn keypad_symbol(row: int, column: int) -> char {
    if column == 3 {
        if row == 0 {
            'A'
        } else if row == 1 {
            'B'
        } else if row == 2 {
            'C'
        } else {
            'D'
        }
    } else if row == 3 {
        if column == 0 {
            '*'
        } else if column == 1 {
            '0'
        } else {
            '#'
        }
    } else {
        ('1' as int + 3 * row + column) as char
    }
}

/// Every key of the keypad is a valid symbol, and its pair is made of the
/// frequency of its column and the frequency of its row.
pub proof fn lemma_table_matches_keypad(row: int, column: int)
    requires
        0 <= row < 4,
        0 <= column < 4,
    ensures
        symbol_index(keypad_symbol(row, column)) is Some,
        tone_table(symbol_index(keypad_symbol(row, column))->0 as int).high_hz == column_hz(
            column,
        ),
        tone_table(symbol_index(keypad_symbol(row, column))->0 as int).low_hz == row_hz(row),
{
}

/// The symbol written for a keypad index: the digit, the upper-case letter,
/// `*` or `#`.
pub open spec fn symbol_of_index(index: int) -> char {
    if index < 10 {
        ('0' as int + index) as char
    } else if index == 10 {
        'A'
    } else if index == 11 {
        'B'
    } else if index == 12 {
        'C'
    } else if index == 13 {
        'D'
    } else if index == 14 {
        '*'
    } else {
        '#'
    }
}

/// Every valid symbol has an index below `SYMBOL_COUNT`.
pub proof fn lemma_symbol_index_bounded(c: char)
    ensures
        symbol_index(c) matches Some(i) ==> i < SYMBOL_COUNT,
{
}

/// Every index below `SYMBOL_COUNT` belongs to a symbol.
pub proof fn lemma_index_has_symbol(index: int)
    requires
        0 <= index < SYMBOL_COUNT,
    ensures
        symbol_index(symbol_of_index(index)) == Some(index as usize),
{
}

/// No two keypad indices share a frequency pair.
pub proof fn lemma_pairs_distinct(i: int, j: int)
    requires
        0 <= i < SYMBOL_COUNT,
        0 <= j < SYMBOL_COUNT,
        i != j,
    ensures
        tone_table(i) != tone_table(j),
{
}

/// The frequency pair of keypad index `index`.
pub fn tone_pair(index: usize) -> (pair: FrequencyPair)
    requires
        index < SYMBOL_COUNT,
    ensures
        pair == tone_table(index as int),
{
    let (high_hz, low_hz): (u32, u32) = match index {
        0 => (1336, 941),
        1 => (1209, 697),
        2 => (1336, 697),
        3 => (1477, 697),
        4 => (1209, 770),
        5 => (1336, 770),
        6 => (1477, 770),
        7 => (1209, 852),
        8 => (1336, 852),
        9 => (1477, 852),
        10 => (1633, 697),
        11 => (1633, 770),
        12 => (1633, 852),
        13 => (1633, 941),
        14 => (1209, 941),
        _ => (1477, 941),
    };
    FrequencyPair { high_hz, low_hz }
}

/// Whether every character of `input` is a keypad symbol.
pub open spec fn all_valid(input: Seq<char>) -> bool {
    forall|k: int| 0 <= k < input.len() ==> (#[trigger] symbol_index(input[k])) is Some
}

/// The keypad indices of a valid input, in input order.
pub open spec fn resolved(input: Seq<char>) -> Seq<usize> {
    Seq::new(input.len(), |k: int| symbol_index(input[k])->0)
}

/// Whether position `k` holds the first character of `input` that is no
/// keypad symbol.
pub open spec fn first_invalid_at(input: Seq<char>, k: int) -> bool {
    &&& 0 <= k < input.len()
    &&& symbol_index(input[k]) is None
    &&& all_valid(input.take(k))
}

/// Resolves a whole input before anything is synthesized: the indices of all
/// its characters in order, or the first character that is no keypad symbol.
pub fn tone_indices(input: &str) -> (r: Result<Vec<usize>, InvalidSymbolError>)
    ensures
        all_valid(input@) <==> r is Ok,
        r matches Ok(indices) ==> indices@ == resolved(input@),
        r matches Ok(indices) ==> forall|k: int|
            0 <= k < indices@.len() ==> #[trigger] indices@[k] < SYMBOL_COUNT,
        r matches Err(e) ==> exists|k: int|
            first_invalid_at(input@, k) && e.symbol == #[trigger] input@[k],
{
    let mut indices: Vec<usize> = Vec::new();
    for c in it: input.chars()
        invariant
            it.seq() == input@,
            indices@.len() == it.index(),
            all_valid(input@.take(it.index() as int)),
            forall|j: int|
                0 <= j < it.index() ==> #[trigger] indices@[j] == symbol_index(input@[j])->0,
            forall|j: int| 0 <= j < it.index() ==> #[trigger] indices@[j] < SYMBOL_COUNT,
    {
        let ghost k = it.index() as int;
        match tone_index(c) {
            Ok(index) => {
                indices.push(index);
                assert(all_valid(input@.take(k + 1))) by {
                    assert forall|j: int| 0 <= j < k + 1 implies (#[trigger] symbol_index(
                        input@.take(k + 1)[j],
                    )) is Some by {
                        if j < k {
                            assert(input@.take(k)[j] == input@[j]);
                        }
                    }
                }
            },
            Err(e) => {
                assert(first_invalid_at(input@, k));
                assert(!all_valid(input@));
                return Err(e);
            },
        }
    }
    assert(input@.take(input@.len() as int) == input@);
    assert(indices@ =~= resolved(input@));
    Ok(indices)
}

} // verus!

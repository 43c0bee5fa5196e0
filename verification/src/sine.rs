//! One period of a sine wave in fixed point, sampled once per output sample.
//!
//! Entry `p` of a table stands for `sin(2 * pi * p / SAMPLE_RATE)`, scaled so
//! that `SINE_UNIT` stands for one. The library evaluates no trigonometric
//! function itself: whoever builds a table supplies the values, and the
//! library checks only their shape.

use vstd::prelude::*;

verus! {

/// Output samples per second.
pub const SAMPLE_RATE: u32 = 44100;

/// The table value that stands for a sine of exactly one.
pub const SINE_UNIT: i32 = 1073741824;

/// The shape of a usable table: one entry per sample of a one-second period,
/// starting at the zero crossing, no entry beyond plus or minus one.
pub open spec fn is_sine_period(values: Seq<i32>) -> bool {
    &&& values.len() == SAMPLE_RATE
    &&& values[0] == 0
    &&& forall|p: int| 0 <= p < values.len() ==> -SINE_UNIT <= #[trigger] values[p] <= SINE_UNIT
}

/// A checked sine period.
pub struct SineTable {
    values: Vec<i32>,
}

impl View for SineTable {
    type V = Seq<i32>;

    closed spec fn view(&self) -> Seq<i32> {
        self.values@
    }
}

impl SineTable {
    #[verifier::type_invariant]
    spec fn well_formed(&self) -> bool {
        is_sine_period(self.values@)
    }

    /// Accepts `values` exactly when they have the shape of a sine period.
    pub fn new(values: Vec<i32>) -> (r: Option<SineTable>)
        ensures
            r is Some <==> is_sine_period(values@),
            r matches Some(table) ==> table@ == values@,
    {
        if values.len() != 44100 {
            return None;
        }
        if values[0] != 0 {
            return None;
        }
        let mut p: usize = 0;
        while p < values.len()
            invariant
                p <= values.len(),
                forall|q: int| 0 <= q < p ==> -SINE_UNIT <= #[trigger] values@[q] <= SINE_UNIT,
            decreases values.len() - p,
        {
            if values[p] < -SINE_UNIT || values[p] > SINE_UNIT {
                return None;
            }
            p += 1;
        }
        Some(SineTable { values })
    }

    /// The table entry at `phase`, counted in samples from the start of a
    /// period; the period repeats every `SAMPLE_RATE` samples.
    pub fn value(&self, phase: u64) -> (v: i32)
        ensures
            v == self@[phase as int % SAMPLE_RATE as int],
            -SINE_UNIT <= v <= SINE_UNIT,
            is_sine_period(self@),
    {
        proof {
            use_type_invariant(self);
        }
        let within: u64 = phase % 44100;
        self.values[within as usize]
    }
}

} // verus!

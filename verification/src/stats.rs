//! How the readings of a period spread over the clinical ranges.

use crate::units::{GlucoseRange, Thresholds};
use vstd::prelude::*;

verus! {

/// The number of readings in each clinical range.
#[derive(Debug, Clone, Copy, PartialEq, Eq, Structural)]
pub struct TimeInRange {
    pub total: usize,
    pub very_low: usize,
    pub low: usize,
    pub in_range: usize,
    pub high: usize,
    pub very_high: usize,
}

/// The number of values that fall in `range` under the thresholds.
pub open spec fn count_in(values: Seq<u16>, thresholds: Thresholds, range: GlucoseRange) -> nat
    decreases values.len(),
{
    if values.len() == 0 {
        0
    } else {
        count_in(values.drop_last(), thresholds, range) + if thresholds.range_of(values.last())
            == range {
            1nat
        } else {
            0nat
        }
    }
}

/// Every value falls in one range: the counts of the five ranges add up to
/// the number of values.
pub proof fn lemma_counts_add_up(values: Seq<u16>, thresholds: Thresholds)
    ensures
        count_in(values, thresholds, GlucoseRange::VeryLow) + count_in(
            values,
            thresholds,
            GlucoseRange::Low,
        ) + count_in(values, thresholds, GlucoseRange::InRange) + count_in(
            values,
            thresholds,
            GlucoseRange::High,
        ) + count_in(values, thresholds, GlucoseRange::VeryHigh) == values.len(),
    decreases values.len(),
{
    if values.len() > 0 {
        lemma_counts_add_up(values.drop_last(), thresholds);
    }
}

impl TimeInRange {
    /// The counts are those of `values` under `thresholds`.
    pub open spec fn counts(self, values: Seq<u16>, thresholds: Thresholds) -> bool {
        &&& self.total == values.len()
        &&& self.very_low == count_in(values, thresholds, GlucoseRange::VeryLow)
        &&& self.low == count_in(values, thresholds, GlucoseRange::Low)
        &&& self.in_range == count_in(values, thresholds, GlucoseRange::InRange)
        &&& self.high == count_in(values, thresholds, GlucoseRange::High)
        &&& self.very_high == count_in(values, thresholds, GlucoseRange::VeryHigh)
    }

    /// Counts the values in each range.
    pub fn from_values(values: &[u16], thresholds: Thresholds) -> (tir: TimeInRange)
        ensures
            tir.counts(values@, thresholds),
            tir.very_low + tir.low + tir.in_range + tir.high + tir.very_high == tir.total,
    {
        let mut tir = TimeInRange {
            total: values.len(),
            very_low: 0,
            low: 0,
            in_range: 0,
            high: 0,
            very_high: 0,
        };
        let mut i: usize = 0;
        while i < values.len()
            invariant
                i <= values@.len(),
                tir.total == values@.len(),
                (TimeInRange { total: i, ..tir }).counts(values@.take(i as int), thresholds),
                tir.very_low + tir.low + tir.in_range + tir.high + tir.very_high == i,
            decreases values@.len() - i,
        {
            assert(values@.take(i + 1).drop_last() =~= values@.take(i as int));
            match thresholds.classify(values[i]) {
                GlucoseRange::VeryLow => {
                    tir.very_low = tir.very_low + 1;
                },
                GlucoseRange::Low => {
                    tir.low = tir.low + 1;
                },
                GlucoseRange::InRange => {
                    tir.in_range = tir.in_range + 1;
                },
                GlucoseRange::High => {
                    tir.high = tir.high + 1;
                },
                GlucoseRange::VeryHigh => {
                    tir.very_high = tir.very_high + 1;
                },
            }
            i = i + 1;
        }
        assert(values@.take(i as int) =~= values@);
        tir
    }

    /// The readings below the range: the low and the very low.
    pub fn total_low(&self) -> (n: usize)
        requires
            self.very_low + self.low <= usize::MAX,
        ensures
            n == self.very_low + self.low,
    {
        self.very_low + self.low
    }

    /// The readings above the range: the high and the very high.
    pub fn total_high(&self) -> (n: usize)
        requires
            self.high + self.very_high <= usize::MAX,
        ensures
            n == self.high + self.very_high,
    {
        self.high + self.very_high
    }
}

} // verus!

//! Glucose values in mg/dL, the unit a user displays them in, and the clinical
//! range a value falls in.

use crate::text::{decimal, push_decimal, push_text};
use vstd::prelude::*;

verus! {

/// A glucose concentration in mg/dL.
#[derive(Debug, Clone, Copy, PartialEq, Eq, Structural, PartialOrd, Ord, Hash)]
pub struct MgDl(pub u16);

impl From<u16> for MgDl {
    fn from(value: u16) -> (mgdl: MgDl) {
        MgDl(value)
    }
}

impl vstd::std_specs::convert::FromSpecImpl<u16> for MgDl {
    open spec fn obeys_from_spec() -> bool {
        true
    }

    open spec fn from_spec(value: u16) -> MgDl {
        MgDl(value)
    }
}

impl MgDl {
    /// The value with its unit, as in `180 mg/dL`.
    pub open spec fn format_text(self) -> Seq<char> {
        decimal(self.0 as nat) + " mg/dL"@
    }

    /// The value with its unit, as in `180 mg/dL`.
    pub fn format(self) -> (text: String)
        ensures
            text@ == self.format_text(),
    {
        let mut text = String::new();
        push_decimal(&mut text, self.0 as u64);
        push_text(&mut text, " mg/dL");
        text
    }

    /// The value alone, in decimal.
    pub fn format_value(self) -> (text: String)
        ensures
            text@ == decimal(self.0 as nat),
    {
        let mut text = String::new();
        push_decimal(&mut text, self.0 as u64);
        text
    }

    /// The name of the unit.
    pub fn unit_label() -> (label: &'static str)
        ensures
            label@ == "mg/dL"@,
    {
        "mg/dL"
    }
}

/// The unit in which a user wants values displayed.
#[derive(Debug, Clone, Copy, PartialEq, Eq, Structural)]
pub enum GlucoseUnit {
    MgDl,
    MmolL,
}

impl Default for GlucoseUnit {
    fn default() -> (unit: GlucoseUnit)
        ensures
            unit == GlucoseUnit::MgDl,
    {
        GlucoseUnit::MgDl
    }
}

impl GlucoseUnit {
    /// The name of the unit.
    pub open spec fn label_text(self) -> Seq<char> {
        match self {
            GlucoseUnit::MgDl => "mg/dL"@,
            GlucoseUnit::MmolL => "mmol/L"@,
        }
    }

    /// The name of the unit.
    pub fn label(self) -> (label: &'static str)
        ensures
            label@ == self.label_text(),
    {
        match self {
            GlucoseUnit::MgDl => MgDl::unit_label(),
            GlucoseUnit::MmolL => "mmol/L",
        }
    }
}

/// The clinical range of a glucose value.
#[derive(Debug, Clone, Copy, PartialEq, Eq, Structural)]
pub enum GlucoseRange {
    /// Below 54 mg/dL.
    VeryLow,
    /// From 54 mg/dL up to the low threshold.
    Low,
    /// From the low threshold to the high threshold, both included.
    InRange,
    /// Above the high threshold, up to 250 mg/dL.
    High,
    /// Above 250 mg/dL.
    VeryHigh,
}

impl GlucoseRange {
    /// The name of the range for display.
    pub open spec fn label_text(self) -> Seq<char> {
        match self {
            GlucoseRange::VeryLow => "Very Low"@,
            GlucoseRange::Low => "Low"@,
            GlucoseRange::InRange => "In Range"@,
            GlucoseRange::High => "High"@,
            GlucoseRange::VeryHigh => "Very High"@,
        }
    }

    /// The short status word of the range.
    pub open spec fn status_text(self) -> Seq<char> {
        match self {
            GlucoseRange::VeryLow => "VERY LOW"@,
            GlucoseRange::Low => "LOW"@,
            GlucoseRange::InRange => "OK"@,
            GlucoseRange::High => "HIGH"@,
            GlucoseRange::VeryHigh => "VERY HIGH"@,
        }
    }

    /// The name of the range for display.
    pub fn label(self) -> (label: &'static str)
        ensures
            label@ == self.label_text(),
    {
        match self {
            GlucoseRange::VeryLow => "Very Low",
            GlucoseRange::Low => "Low",
            GlucoseRange::InRange => "In Range",
            GlucoseRange::High => "High",
            GlucoseRange::VeryHigh => "Very High",
        }
    }

    /// The short status word of the range.
    pub fn status(self) -> (status: &'static str)
        ensures
            status@ == self.status_text(),
    {
        match self {
            GlucoseRange::VeryLow => "VERY LOW",
            GlucoseRange::Low => "LOW",
            GlucoseRange::InRange => "OK",
            GlucoseRange::High => "HIGH",
            GlucoseRange::VeryHigh => "VERY HIGH",
        }
    }
}

/// Below this value, in mg/dL, a reading is very low.
pub const VERY_LOW_MGDL: u16 = 54;

/// Above this value, in mg/dL, a reading is very high.
pub const VERY_HIGH_MGDL: u16 = 250;

/// The two thresholds, in mg/dL, between which a reading is in range.
#[derive(Debug, Clone, Copy, PartialEq, Eq, Structural)]
pub struct Thresholds {
    /// Readings below this value are low.
    pub low_mgdl: u16,
    /// Readings above this value are high.
    pub high_mgdl: u16,
}

impl Default for Thresholds {
    /// The usual thresholds: 70 and 180 mg/dL.
    fn default() -> (thresholds: Thresholds)
        ensures
            thresholds == (Thresholds { low_mgdl: 70, high_mgdl: 180 }),
    {
        Thresholds { low_mgdl: 70, high_mgdl: 180 }
    }
}

impl Thresholds {
    /// The range of a reading: very low below 54, else low below the low
    /// threshold, else in range up to the high threshold, else high up to 250,
    /// else very high.
    pub open spec fn range_of(self, mg_dl: u16) -> GlucoseRange {
        if mg_dl < 54 {
            GlucoseRange::VeryLow
        } else if mg_dl < self.low_mgdl {
            GlucoseRange::Low
        } else if mg_dl <= self.high_mgdl {
            GlucoseRange::InRange
        } else if mg_dl <= 250 {
            GlucoseRange::High
        } else {
            GlucoseRange::VeryHigh
        }
    }

    /// Tells the range of a reading.
    pub fn classify(&self, mg_dl: u16) -> (range: GlucoseRange)
        ensures
            range == self.range_of(mg_dl),
    {
        if mg_dl < VERY_LOW_MGDL {
            GlucoseRange::VeryLow
        } else if mg_dl < self.low_mgdl {
            GlucoseRange::Low
        } else if mg_dl <= self.high_mgdl {
            GlucoseRange::InRange
        } else if mg_dl <= VERY_HIGH_MGDL {
            GlucoseRange::High
        } else {
            GlucoseRange::VeryHigh
        }
    }
}

/// With thresholds that lie between the two fixed bounds and in their order,
/// the ranges follow one another as the value rises.
pub proof fn lemma_ranges_in_order(thresholds: Thresholds, a: u16, b: u16)
    requires
        54 <= thresholds.low_mgdl <= thresholds.high_mgdl <= 250,
        a <= b,
    ensures
        range_rank(thresholds.range_of(a)) <= range_rank(thresholds.range_of(b)),
{
}

/// The place of a range among the five, from very low to very high.
pub open spec fn range_rank(range: GlucoseRange) -> nat {
    match range {
        GlucoseRange::VeryLow => 0,
        GlucoseRange::Low => 1,
        GlucoseRange::InRange => 2,
        GlucoseRange::High => 3,
        GlucoseRange::VeryHigh => 4,
    }
}

} // verus!

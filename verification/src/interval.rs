//! The named look-back ranges that the chart endpoint accepts.

use vstd::prelude::*;

verus! {

/// A named look-back range of the chart endpoint.
#[derive(Clone, Copy, Debug, PartialEq, Eq)]
pub enum Interval {
    OneDay,
    FiveDays,
    OneMonth,
    ThreeMonths,
    SixMonths,
    OneYear,
    TwoYears,
    FiveYears,
    TenYears,
    YearToDate,
    Max,
}

impl Interval {
    /// The text that stands for this range in a request's `range` parameter.
    pub open spec fn spec_name(self) -> Seq<char> {
        match self {
            Interval::OneDay => "1d"@,
            Interval::FiveDays => "5d"@,
            Interval::OneMonth => "1mo"@,
            Interval::ThreeMonths => "3mo"@,
            Interval::SixMonths => "6mo"@,
            Interval::OneYear => "1y"@,
            Interval::TwoYears => "2y"@,
            Interval::FiveYears => "5y"@,
            Interval::TenYears => "10y"@,
            Interval::YearToDate => "ytd"@,
            Interval::Max => "max"@,
        }
    }

    /// The text that stands for this range in a request's `range` parameter.
    pub fn name(&self) -> (text: &'static str)
        ensures
            text@ == self.spec_name(),
    {
        match self {
            Interval::OneDay => "1d",
            Interval::FiveDays => "5d",
            Interval::OneMonth => "1mo",
            Interval::ThreeMonths => "3mo",
            Interval::SixMonths => "6mo",
            Interval::OneYear => "1y",
            Interval::TwoYears => "2y",
            Interval::FiveYears => "5y",
            Interval::TenYears => "10y",
            Interval::YearToDate => "ytd",
            Interval::Max => "max",
        }
    }
}

} // verus!

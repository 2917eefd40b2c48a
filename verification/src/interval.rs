use vstd::prelude::*;
use vstd::string::StrSliceExecFns;

verus! {

/// A candlestick sampling interval, from one minute up to one month
/// (counted as thirty days).
#[derive(Debug, Clone, Copy, PartialEq, Eq, Structural)]
pub enum Interval {
    OneMinute,
    ThreeMinute,
    FiveMinute,
    FifteenMinute,
    ThirtyMinute,
    OneHour,
    TwoHour,
    FourHour,
    SixHour,
    EightHour,
    TwelweHour,
    OneDay,
    ThreeDay,
    OneWeek,
    OneMonth,
}

/// The error of parsing a string no interval notation matches.
#[derive(Debug, Clone, Copy, PartialEq, Eq, Structural)]
pub struct ParseIntervalError;

/// Which interval a string denotes: the fifteen notations accepted on the
/// wire, and nothing else.
pub open spec fn spec_interval(s: Seq<char>) -> Option<Interval> {
    if s == seq!['1', 'm'] {
        Some(Interval::OneMinute)
    } else if s == seq!['3', 'm'] {
        Some(Interval::ThreeMinute)
    } else if s == seq!['5', 'm'] {
        Some(Interval::FiveMinute)
    } else if s == seq!['1', '5', 'm'] {
        Some(Interval::FifteenMinute)
    } else if s == seq!['3', '0', 'm'] {
        Some(Interval::ThirtyMinute)
    } else if s == seq!['1', 'h'] {
        Some(Interval::OneHour)
    } else if s == seq!['2', 'h'] {
        Some(Interval::TwoHour)
    } else if s == seq!['4', 'h'] {
        Some(Interval::FourHour)
    } else if s == seq!['6', 'h'] {
        Some(Interval::SixHour)
    } else if s == seq!['8', 'h'] {
        Some(Interval::EightHour)
    } else if s == seq!['1', '2', 'h'] {
        Some(Interval::TwelweHour)
    } else if s == seq!['1', 'd'] {
        Some(Interval::OneDay)
    } else if s == seq!['3', 'd'] {
        Some(Interval::ThreeDay)
    } else if s == seq!['1', 'w'] {
        Some(Interval::OneWeek)
    } else if s == seq!['1', 'M'] {
        Some(Interval::OneMonth)
    } else {
        None
    }
}

impl Interval {
    /// How many seconds one interval spans.
    pub open spec fn spec_seconds(self) -> u64 {
        match self {
            Interval::OneMinute => 60,
            Interval::ThreeMinute => 180,
            Interval::FiveMinute => 300,
            Interval::FifteenMinute => 900,
            Interval::ThirtyMinute => 1_800,
            Interval::OneHour => 3_600,
            Interval::TwoHour => 7_200,
            Interval::FourHour => 14_400,
            Interval::SixHour => 21_600,
            Interval::EightHour => 28_800,
            Interval::TwelweHour => 43_200,
            Interval::OneDay => 86_400,
            Interval::ThreeDay => 259_200,
            Interval::OneWeek => 604_800,
            Interval::OneMonth => 2_592_000,
        }
    }

    /// The span of the interval in seconds.
    pub fn seconds(&self) -> (r: u64)
        ensures
            r == self.spec_seconds(),
    {
        match self {
            Interval::OneMinute => 60,
            Interval::ThreeMinute => 180,
            Interval::FiveMinute => 300,
            Interval::FifteenMinute => 900,
            Interval::ThirtyMinute => 1_800,
            Interval::OneHour => 3_600,
            Interval::TwoHour => 7_200,
            Interval::FourHour => 14_400,
            Interval::SixHour => 21_600,
            Interval::EightHour => 28_800,
            Interval::TwelweHour => 43_200,
            Interval::OneDay => 86_400,
            Interval::ThreeDay => 259_200,
            Interval::OneWeek => 604_800,
            Interval::OneMonth => 2_592_000,
        }
    }

    /// Parses an interval notation; exactly the strings `spec_interval`
    /// accepts parse, every other string is rejected.
    pub fn from_str(s: &str) -> (r: Result<Interval, ParseIntervalError>)
        ensures
            match spec_interval(s@) {
                Some(iv) => r == Ok::<Interval, ParseIntervalError>(iv),
                None => r == Err::<Interval, ParseIntervalError>(ParseIntervalError),
            },
    {
        let n = s.unicode_len();
        if n == 2 {
            let c0 = s.get_char(0);
            let c1 = s.get_char(1);
            let r = if c1 == 'm' {
                if c0 == '1' {
                    Ok(Interval::OneMinute)
                } else if c0 == '3' {
                    Ok(Interval::ThreeMinute)
                } else if c0 == '5' {
                    Ok(Interval::FiveMinute)
                } else {
                    Err(ParseIntervalError)
                }
            } else if c1 == 'h' {
                if c0 == '1' {
                    Ok(Interval::OneHour)
                } else if c0 == '2' {
                    Ok(Interval::TwoHour)
                } else if c0 == '4' {
                    Ok(Interval::FourHour)
                } else if c0 == '6' {
                    Ok(Interval::SixHour)
                } else if c0 == '8' {
                    Ok(Interval::EightHour)
                } else {
                    Err(ParseIntervalError)
                }
            } else if c1 == 'd' {
                if c0 == '1' {
                    Ok(Interval::OneDay)
                } else if c0 == '3' {
                    Ok(Interval::ThreeDay)
                } else {
                    Err(ParseIntervalError)
                }
            } else if c1 == 'w' {
                if c0 == '1' {
                    Ok(Interval::OneWeek)
                } else {
                    Err(ParseIntervalError)
                }
            } else if c1 == 'M' {
                if c0 == '1' {
                    Ok(Interval::OneMonth)
                } else {
                    Err(ParseIntervalError)
                }
            } else {
                Err(ParseIntervalError)
            };
            proof {
                assert(s@.len() == 2);
                if r is Ok {
                    assert(s@ =~= seq![c0, c1]);
                }
            }
            r
        } else if n == 3 {
            let c0 = s.get_char(0);
            let c1 = s.get_char(1);
            let c2 = s.get_char(2);
            let r = if c0 == '1' && c1 == '5' && c2 == 'm' {
                Ok(Interval::FifteenMinute)
            } else if c0 == '3' && c1 == '0' && c2 == 'm' {
                Ok(Interval::ThirtyMinute)
            } else if c0 == '1' && c1 == '2' && c2 == 'h' {
                Ok(Interval::TwelweHour)
            } else {
                Err(ParseIntervalError)
            };
            proof {
                assert(s@.len() == 3);
                if r is Ok {
                    assert(s@ =~= seq![c0, c1, c2]);
                }
            }
            r
        } else {
            Err(ParseIntervalError)
        }
    }
}

impl core::str::FromStr for Interval {
    type Err = ParseIntervalError;

    fn from_str(s: &str) -> Result<Interval, ParseIntervalError> {
        Interval::from_str(s)
    }
}

} // verus!

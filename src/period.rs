//! The probe period: a positive duration read from text such as `1s` or
//! `250ms`.
use vstd::prelude::*;

verus! {

/// What `duration_str::parse` makes of a text, in nanoseconds; `None` where it
/// refuses the text.
pub uninterp spec fn duration_nanos(text: Seq<char>) -> Option<u128>;

/// Relies on `duration_str::parse`: it reads a duration from text, refuses an
/// empty text, and its answer depends on the text alone.
#[verifier::external_body]
fn parse_duration_nanos(text: &str) -> (r: Result<u128, String>)
    ensures
        r is Ok <==> duration_nanos(text@) is Some,
        r matches Ok(n) ==> duration_nanos(text@) == Some(n),
        text@.len() == 0 ==> r is Err,
{
    match duration_str::parse(text) {
        Ok(d) => Ok(d.as_nanos()),
        Err(e) => Err(e),
    }
}

/// A positive period between two probes.
#[derive(PartialEq, Eq, Structural, Clone, Copy, Debug)]
pub struct ProbePeriod {
    pub nanos: u128,
}

/// Why a period was refused.
#[derive(Clone, Debug, PartialEq, Eq)]
pub enum PeriodError {
    /// The text is not a duration; the parser's message.
    Unreadable(String),
    /// The duration is zero.
    NotPositive,
}

impl ProbePeriod {
    pub open spec fn wf(&self) -> bool {
        self.nanos > 0
    }

    /// The period of `nanos` nanoseconds; `None` for zero.
    pub fn from_nanos(nanos: u128) -> (r: Option<ProbePeriod>)
        ensures
            r is Some <==> nanos > 0,
            r matches Some(p) ==> p.nanos == nanos && p.wf(),
    {
        if nanos == 0 {
            None
        } else {
            Some(ProbePeriod { nanos })
        }
    }

    /// Length of the period in nanoseconds.
    pub fn as_nanos(&self) -> (r: u128)
        ensures
            r == self.nanos,
    {
        self.nanos
    }
}

/// Turns what the duration parser returned into a period: its refusal stays a
/// refusal, zero is refused, anything else is the period.
pub fn period_from_parsed(parsed: Result<u128, String>) -> (r: Result<ProbePeriod, PeriodError>)
    ensures
        match parsed {
            Ok(n) => if n == 0 {
                r matches Err(PeriodError::NotPositive)
            } else {
                r matches Ok(p) && p.nanos == n && p.wf()
            },
            Err(msg) => r matches Err(PeriodError::Unreadable(m)) && m@ == msg@,
        },
{
    match parsed {
        Ok(n) => match ProbePeriod::from_nanos(n) {
            Some(p) => Ok(p),
            None => Err(PeriodError::NotPositive),
        },
        Err(msg) => Err(PeriodError::Unreadable(msg)),
    }
}

/// Reads a probe period from text.
pub fn parse_period(text: &str) -> (r: Result<ProbePeriod, PeriodError>)
    ensures
        match duration_nanos(text@) {
            None => r matches Err(PeriodError::Unreadable(_)),
            Some(n) => if n == 0 {
                r matches Err(PeriodError::NotPositive)
            } else {
                r matches Ok(p) && p.nanos == n && p.wf()
            },
        },
        text@.len() == 0 ==> r matches Err(PeriodError::Unreadable(_)),
{
    period_from_parsed(parse_duration_nanos(text))
}

} // verus!

//! Time spans as plain values, and their reading from human-friendly text.
use vstd::prelude::*;
use vstd::utf8::encode_utf8;

use crate::config::ConfigError;

verus! {

/// Nanoseconds in one second.
pub const NANOS_PER_SEC: u32 = 1_000_000_000;

/// A span of time: whole seconds plus a sub-second part in nanoseconds.
#[derive(PartialEq, Eq, Structural, Clone, Copy, Debug)]
pub struct Interval {
    pub secs: u64,
    pub nanos: u32,
}

/// Most decimal digits that a duration text may hold. Below this bound no
/// text can name more seconds than a duration holds (each number stays
/// under 10^11, the longest unit is a year of 31,557,600 seconds).
pub const MAX_DIGITS: usize = 11;

/// How many ASCII decimal digits `bytes` holds.
pub open spec fn digit_count(bytes: Seq<u8>) -> nat
    decreases bytes.len(),
{
    if bytes.len() == 0 {
        0
    } else {
        digit_count(bytes.drop_last()) + if 0x30 <= bytes.last() <= 0x39 {
            1nat
        } else {
            0nat
        }
    }
}

/// The text holds at most `MAX_DIGITS` decimal digits.
pub open spec fn short_numerals(text: Seq<char>) -> bool {
    digit_count(encode_utf8(text)) <= MAX_DIGITS
}

/// What a human-friendly duration text (such as `500ms` or `2h 5min`) reads
/// as, in whole seconds and nanoseconds; `None` where the text is no duration.
pub uninterp spec fn duration_of(text: Seq<char>) -> Option<(u64, u32)>;

#[verifier::external_type_specification]
#[verifier::external_body]
pub struct ExDurationError(humantime::DurationError);

/// Relies on humantime::parse_duration: it reads the text as a duration or
/// fails, depending on the text alone; the sub-second part of a
/// std::time::Duration is below one second. Its sums of seconds reach
/// Duration::new, which panics where they overflow: few enough digits keep
/// every text below that.
#[verifier::external_body]
fn parse_duration_text(text: &str) -> (r: Result<(u64, u32), humantime::DurationError>)
    requires
        short_numerals(text@),
    ensures
        r is Ok <==> duration_of(text@) is Some,
        r matches Ok(v) ==> duration_of(text@) == Some(v) && v.1 < NANOS_PER_SEC,
{
    match humantime::parse_duration(text) {
        Ok(d) => Ok((d.as_secs(), d.subsec_nanos())),
        Err(e) => Err(e),
    }
}

/// How many ASCII decimal digits the text holds.
pub fn count_digits(text: &str) -> (n: usize)
    ensures
        n == digit_count(encode_utf8(text@)),
{
    let bytes = text.as_bytes();
    let mut n: usize = 0;
    let mut i: usize = 0;
    while i < bytes.len()
        invariant
            i <= bytes@.len(),
            n <= i,
            n == digit_count(bytes@.take(i as int)),
        decreases bytes@.len() - i,
    {
        assert(bytes@.take(i + 1).drop_last() == bytes@.take(i as int));
        if 0x30 <= bytes[i] && bytes[i] <= 0x39 {
            n = n + 1;
        }
        i = i + 1;
    }
    assert(bytes@.take(i as int) == bytes@);
    n
}

impl Interval {
    /// The sub-second part is below one second.
    pub open spec fn wf(&self) -> bool {
        self.nanos < NANOS_PER_SEC
    }

    /// The whole span in nanoseconds.
    pub open spec fn nanos_total(&self) -> int {
        self.secs * 1_000_000_000 + self.nanos
    }

    /// A span of whole seconds.
    pub fn from_secs(secs: u64) -> (r: Interval)
        ensures
            r.wf(),
            r.secs == secs,
            r.nanos == 0,
    {
        Interval { secs, nanos: 0 }
    }

    /// A span of `secs` seconds and `nanos` nanoseconds.
    pub fn new(secs: u64, nanos: u32) -> (r: Interval)
        requires
            nanos < NANOS_PER_SEC,
        ensures
            r.wf(),
            r.secs == secs,
            r.nanos == nanos,
    {
        Interval { secs, nanos }
    }

    /// The whole span in nanoseconds.
    pub fn as_nanos(&self) -> (r: u128)
        requires
            self.wf(),
        ensures
            r == self.nanos_total(),
    {
        assert(self.secs * 1_000_000_000 <= u64::MAX * 1_000_000_000) by (nonlinear_arith);
        self.secs as u128 * 1_000_000_000 + self.nanos as u128
    }

    /// Reads a human-friendly duration text such as `500ms` or `2s`; a
    /// text with more than `MAX_DIGITS` digits is refused unread.
    pub fn parse(text: &str) -> (r: Result<Interval, ConfigError>)
        ensures
            r is Ok <==> short_numerals(text@) && duration_of(text@) is Some,
            r matches Ok(i) ==> i.wf() && duration_of(text@) == Some((i.secs, i.nanos)),
            r matches Err(e) ==> e == ConfigError::InvalidInterval,
    {
        if count_digits(text) > MAX_DIGITS {
            return Err(ConfigError::InvalidInterval);
        }
        match parse_duration_text(text) {
            Ok((secs, nanos)) => Ok(Interval { secs, nanos }),
            Err(_) => Err(ConfigError::InvalidInterval),
        }
    }
}

} // verus!

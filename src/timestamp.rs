use vstd::prelude::*;

verus! {

/// An instant in UTC: whole seconds since the Unix epoch and the nanoseconds
/// past that second.
#[derive(Clone, Copy, Debug, PartialEq, Eq, Structural)]
pub struct UtcTimestamp {
    pub seconds: i64,
    pub nanos: u32,
}

/// The RFC 3339 text (UTC, `Z` suffix, fractional seconds only as long as
/// needed) of the instant `seconds`/`nanos`, or `None` where that instant is
/// out of the representable range.
pub uninterp spec fn rfc3339_of(seconds: int, nanos: int) -> Option<Seq<char>>;

/// Relies on `chrono::DateTime::from_timestamp`, which yields `None` on an
/// out-of-range instant, and `DateTime::to_rfc3339_opts` with
/// `SecondsFormat::AutoSi` and `use_z`: the text depends on the instant alone.
#[verifier::external_body]
fn rfc3339_text(seconds: i64, nanos: u32) -> (r: Option<String>)
    ensures
        match r {
            Some(t) => rfc3339_of(seconds as int, nanos as int) == Some(t@),
            None => rfc3339_of(seconds as int, nanos as int) is None,
        },
{
    match chrono::DateTime::from_timestamp(seconds, nanos) {
        Some(d) => Some(d.to_rfc3339_opts(chrono::SecondsFormat::AutoSi, true)),
        None => None,
    }
}

/// Relies on chrono's `From<std::time::SystemTime> for DateTime<Utc>` for
/// the current instant (it also takes a clock set before 1970), read back
/// through `DateTime::timestamp` and `DateTime::timestamp_subsec_nanos`.
/// Nothing is known of the value.
#[verifier::external_body]
fn utc_now() -> (r: UtcTimestamp) {
    let now = chrono::DateTime::<chrono::Utc>::from(std::time::SystemTime::now());
    UtcTimestamp { seconds: now.timestamp(), nanos: now.timestamp_subsec_nanos() }
}

/// Whether `s` is a date and time that chrono reads as a UTC instant.
pub uninterp spec fn is_datetime_text(s: Seq<char>) -> bool;

/// Relies on chrono's `FromStr for DateTime<Utc>` (a relaxed RFC 3339 form
/// with an offset): whether it reads `s` depends on the text alone.
#[verifier::external_body]
pub(crate) fn datetime_text_parses(s: &str) -> (r: bool)
    ensures
        r == is_datetime_text(s@),
{
    s.parse::<chrono::DateTime<chrono::Utc>>().is_ok()
}

/// The second `minutes` minutes before `seconds`.
pub open spec fn minutes_before(seconds: int, minutes: int) -> int {
    seconds - 60 * minutes
}

pub open spec fn fits_i64(x: int) -> bool {
    i64::MIN <= x <= i64::MAX
}

impl UtcTimestamp {
    /// The current instant.
    pub fn now() -> (r: UtcTimestamp) {
        utc_now()
    }

    /// The instant `minutes` minutes earlier, or `None` where its second
    /// does not fit an `i64`.
    pub fn minus_minutes(&self, minutes: u64) -> (r: Option<UtcTimestamp>)
        ensures
            r is Some <==> fits_i64(minutes_before(self.seconds as int, minutes as int)),
            r matches Some(t) ==> t.seconds == minutes_before(self.seconds as int, minutes as int)
                && t.nanos == self.nanos,
    {
        let back: i128 = (minutes as i128) * 60;
        let s: i128 = (self.seconds as i128) - back;
        if s < i64::MIN as i128 || s > i64::MAX as i128 {
            None
        } else {
            Some(UtcTimestamp { seconds: s as i64, nanos: self.nanos })
        }
    }

    /// The RFC 3339 text of this instant, or `None` where it is out of range.
    pub fn to_rfc3339(&self) -> (r: Option<String>)
        ensures
            match r {
                Some(t) => rfc3339_of(self.seconds as int, self.nanos as int) == Some(t@),
                None => rfc3339_of(self.seconds as int, self.nanos as int) is None,
            },
    {
        rfc3339_text(self.seconds, self.nanos)
    }
}

} // verus!

use vstd::prelude::*;

verus! {

/// Earliest whole second that a UTC date-time can hold (start of year -262143).
pub const MIN_TIMESTAMP: i64 = -8334601228800;

/// Latest whole second that a UTC date-time can hold (end of year 262142).
pub const MAX_TIMESTAMP: i64 = 8210266876799;

/// Largest whole number of seconds a `chrono::TimeDelta` holds (`i64::MAX`
/// milliseconds, rounded down); the smallest is its negation.
pub const MAX_DELTA_SECONDS: i64 = 9223372036854775;

/// A point in UTC time: whole seconds since the Unix epoch and the
/// nanoseconds past that second.
#[derive(Debug, Clone, Copy, PartialEq, Eq, Structural)]
pub struct Timestamp {
    pub secs: i64,
    pub nanos: u32,
}

/// Seconds that a UTC date-time can represent.
pub open spec fn secs_in_range(secs: int) -> bool {
    MIN_TIMESTAMP <= secs <= MAX_TIMESTAMP
}

impl Timestamp {
    /// A timestamp that a UTC date-time can represent.
    pub open spec fn wf(self) -> bool {
        &&& secs_in_range(self.secs as int)
        &&& self.nanos < 1_000_000_000
    }
}

/// The current UTC time, read from the system clock by `chrono::Utc::now`.
/// Nothing is promised of which time comes back, only that it is a valid
/// UTC date-time (seconds within range, nanoseconds below one second).
#[verifier::external_body]
pub fn utc_now() -> (r: Timestamp)
    ensures
        r.wf(),
{
    let now = chrono::Utc::now();
    Timestamp { secs: now.timestamp(), nanos: now.timestamp_subsec_nanos() }
}

/// `chrono::DateTime::<Utc>::from_timestamp(secs, 0)`: the date-time at a whole
/// second, which exists exactly when the second is within the representable range.
#[verifier::external_body]
pub fn utc_from_timestamp(secs: i64) -> (r: Option<Timestamp>)
    ensures
        r == (if secs_in_range(secs as int) {
            Some(Timestamp { secs, nanos: 0 })
        } else {
            None::<Timestamp>
        }),
{
    match chrono::DateTime::<chrono::Utc>::from_timestamp(secs, 0) {
        Some(d) => Some(Timestamp { secs: d.timestamp(), nanos: d.timestamp_subsec_nanos() }),
        None => None,
    }
}

/// `chrono::DateTime::checked_add_signed` with a whole number of seconds
/// (`chrono::TimeDelta::try_seconds`): the later or earlier date-time keeps its
/// nanoseconds and exists exactly when the new second is within range.
#[verifier::external_body]
pub fn utc_checked_add_seconds(t: Timestamp, seconds: i64) -> (r: Option<Timestamp>)
    requires
        t.wf(),
    ensures
        r == (if secs_in_range(t.secs + seconds) {
            Some(Timestamp { secs: (t.secs + seconds) as i64, nanos: t.nanos })
        } else {
            None::<Timestamp>
        }),
{
    let start = chrono::DateTime::<chrono::Utc>::from_timestamp(t.secs, t.nanos)?;
    let later = start.checked_add_signed(chrono::TimeDelta::try_seconds(seconds)?)?;
    Some(Timestamp { secs: later.timestamp(), nanos: later.timestamp_subsec_nanos() })
}

/// A calendar date, counted in days from the Common Era (0001-01-01 is day 1).
#[derive(Debug, Clone, Copy, PartialEq, Eq, Structural)]
pub struct Date {
    pub days_from_ce: i32,
}

} // verus!

//! Reading the system clock and writing it as an RFC 3339 UTC timestamp.

use vstd::prelude::*;

use crate::model::opt_view;

verus! {

#[verifier::external_type_specification]
#[verifier::external_body]
pub struct ExSystemTime(std::time::SystemTime);

/// `std::time::SystemTime::now`. The value depends on the clock; nothing is stated.
#[verifier::external_body]
fn system_now() -> (t: std::time::SystemTime) {
    std::time::SystemTime::now()
}

/// `SystemTime::duration_since(UNIX_EPOCH)`: `Ok` with the distance from the
/// epoch when `t` is not before it, else `Err` with the distance the
/// `SystemTimeError` carries. Nothing is stated of the distance.
#[verifier::external_body]
fn since_unix_epoch(t: &std::time::SystemTime) -> (r: Result<
    core::time::Duration,
    core::time::Duration,
>) {
    match t.duration_since(std::time::UNIX_EPOCH) {
        Ok(d) => Ok(d),
        Err(e) => Err(e.duration()),
    }
}

/// `Duration::as_secs`: the whole seconds of `d`. Nothing is stated.
#[verifier::external_body]
fn whole_secs(d: &core::time::Duration) -> (s: u64) {
    d.as_secs()
}

/// `Duration::subsec_nanos`: the fractional part of `d` in nanoseconds,
/// which std documents as always less than one billion.
#[verifier::external_body]
fn sub_nanos(d: &core::time::Duration) -> (n: u32)
    ensures
        n < 1_000_000_000,
{
    d.subsec_nanos()
}

/// A clock reading: the distance of the current time from the Unix epoch,
/// and on which side of the epoch it lies.
#[derive(Debug, Clone, Copy, PartialEq, Eq, Structural)]
pub struct ClockReading {
    pub before_epoch: bool,
    pub secs: u64,
    pub nanos: u32,
}

/// The largest distance from the epoch, in seconds, that is always written
/// as a timestamp (about 250 000 years, inside chrono's date range).
pub open spec fn max_stamp_secs() -> int {
    8_000_000_000_000
}

/// A reading as a Unix timestamp: seconds (negative before the epoch) and a
/// nanosecond part in `0..1_000_000_000`; `None` if it does not fit an `i64`
/// or the nanoseconds are out of range.
pub open spec fn unix_timestamp(r: ClockReading) -> Option<(i64, u32)> {
    if r.nanos >= 1_000_000_000 || r.secs > i64::MAX {
        None
    } else if !r.before_epoch {
        Some((r.secs as i64, r.nanos))
    } else if r.nanos == 0 {
        Some(((-(r.secs as int)) as i64, 0u32))
    } else {
        Some(((-(r.secs as int) - 1) as i64, (1_000_000_000 - r.nanos) as u32))
    }
}

/// What chrono writes for the Unix timestamp `secs`.`nanos` in UTC with
/// `to_rfc3339`, or `None` where `DateTime::from_timestamp` refuses it.
pub uninterp spec fn rfc3339_text(secs: i64, nanos: u32) -> Option<Seq<char>>;

/// What holds of every timestamp chrono writes in UTC: at least 25
/// characters (`YYYY-MM-DDTHH:MM:SS`, optional fraction, offset) ending in
/// the `+00:00` offset.
pub open spec fn is_utc_rfc3339(ts: Seq<char>) -> bool {
    &&& ts.len() >= 25
    &&& ts.subrange(ts.len() - 6, ts.len() as int) == "+00:00"@
}

/// `chrono::DateTime::<Utc>::from_timestamp(secs, nanos)` written with
/// `to_rfc3339`.
///
/// The text is named `rfc3339_text`. From chrono's source: the writer puts
/// the date and time, an optional fraction and `+00:00`; `from_timestamp`
/// accepts every `nanos` below one billion with `secs` inside its date range
/// (years -262142 to 262142), which contains the bound stated here.
#[verifier::external_body]
fn rfc3339_utc(secs: i64, nanos: u32) -> (r: Option<String>)
    ensures
        opt_view(r) == rfc3339_text(secs, nanos),
        r matches Some(s) ==> is_utc_rfc3339(s@),
        nanos < 1_000_000_000 && -8_100_000_000_000 <= secs <= 8_100_000_000_000 ==> r is Some,
{
    match chrono::DateTime::<chrono::Utc>::from_timestamp(secs, nanos) {
        Some(dt) => Some(dt.to_rfc3339()),
        None => None,
    }
}

/// The signed distance of a reading from the epoch, in nanoseconds.
pub open spec fn reading_nanos(r: ClockReading) -> int {
    if r.before_epoch {
        -(r.secs * 1_000_000_000 + r.nanos)
    } else {
        r.secs * 1_000_000_000 + r.nanos
    }
}

/// The Unix timestamp of a reading names the same instant: its seconds and
/// nanoseconds add up to the reading's signed distance from the epoch, the
/// nanosecond part lies in `0..1_000_000_000`, and an after-epoch reading
/// keeps its seconds and nanoseconds as they are.
pub proof fn law_timestamp_keeps_instant(r: ClockReading)
    requires
        r.nanos < 1_000_000_000,
        r.secs <= i64::MAX,
    ensures
        unix_timestamp(r) is Some,
        unix_timestamp(r) matches Some((s, n)) && s * 1_000_000_000 + n == reading_nanos(r) && n
            < 1_000_000_000,
        !r.before_epoch ==> unix_timestamp(r) == Some((r.secs as i64, r.nanos)),
        !r.before_epoch ==> stamp_text(r) == match rfc3339_text(r.secs as i64, r.nanos) {
            Some(t) => t,
            None => Seq::<char>::empty(),
        },
{
}

/// Two readings give the same Unix timestamp only if they name the same
/// instant: a reading is never mirrored to the other side of the epoch.
pub proof fn law_timestamp_distinguishes_instants(a: ClockReading, b: ClockReading)
    requires
        a.nanos < 1_000_000_000,
        b.nanos < 1_000_000_000,
        a.secs <= i64::MAX,
        b.secs <= i64::MAX,
        unix_timestamp(a) == unix_timestamp(b),
    ensures
        reading_nanos(a) == reading_nanos(b),
{
    law_timestamp_keeps_instant(a);
    law_timestamp_keeps_instant(b);
}

/// The timestamp text of a reading: chrono's RFC 3339 text, or empty where
/// the reading lies outside what chrono can represent.
pub open spec fn stamp_text(r: ClockReading) -> Seq<char> {
    match unix_timestamp(r) {
        Some((s, n)) => match rfc3339_text(s, n) {
            Some(t) => t,
            None => Seq::empty(),
        },
        None => Seq::empty(),
    }
}

/// `ts` is the timestamp of some clock reading, and an RFC 3339 UTC text
/// whenever that reading lies within `max_stamp_secs` of the epoch.
pub open spec fn is_clock_stamp(ts: Seq<char>) -> bool {
    exists|r: ClockReading|
        {
            &&& r.nanos < 1_000_000_000
            &&& #[trigger] stamp_text(r) == ts
            &&& r.secs <= max_stamp_secs() ==> is_utc_rfc3339(ts)
        }
}

/// The reading for the distance from the epoch: `Ok` (the time is at or
/// after the epoch) gives an after-epoch reading, `Err` a before-epoch one,
/// with the distance's whole seconds and nanoseconds.
pub fn reading_from(elapsed: &Result<core::time::Duration, core::time::Duration>) -> (r:
    ClockReading)
    ensures
        r.before_epoch <==> elapsed is Err,
        r.nanos < 1_000_000_000,
{
    match elapsed {
        Ok(d) => ClockReading { before_epoch: false, secs: whole_secs(d), nanos: sub_nanos(d) },
        Err(d) => ClockReading { before_epoch: true, secs: whole_secs(d), nanos: sub_nanos(d) },
    }
}

/// Reads the system clock.
pub fn read_clock() -> (r: ClockReading)
    ensures
        r.nanos < 1_000_000_000,
{
    let t = system_now();
    let elapsed = since_unix_epoch(&t);
    reading_from(&elapsed)
}

/// The reading as a Unix timestamp.
fn unix_timestamp_of(r: &ClockReading) -> (t: Option<(i64, u32)>)
    ensures
        t == unix_timestamp(*r),
{
    if r.nanos >= 1_000_000_000 || r.secs > 0x7fff_ffff_ffff_ffff {
        None
    } else if !r.before_epoch {
        Some((r.secs as i64, r.nanos))
    } else if r.nanos == 0 {
        Some((-(r.secs as i64), 0))
    } else {
        Some((-(r.secs as i64) - 1, 1_000_000_000 - r.nanos))
    }
}

/// The RFC 3339 UTC timestamp of a clock reading (empty where chrono cannot
/// represent it).
pub fn timestamp_for(r: &ClockReading) -> (ts: String)
    ensures
        ts@ == stamp_text(*r),
        r.nanos < 1_000_000_000 && r.secs <= max_stamp_secs() ==> is_utc_rfc3339(ts@),
{
    match unix_timestamp_of(r) {
        Some((s, n)) => match rfc3339_utc(s, n) {
            Some(t) => t,
            None => String::new(),
        },
        None => String::new(),
    }
}

/// The current time as an RFC 3339 UTC timestamp.
pub fn utc_now() -> (ts: String)
    ensures
        is_clock_stamp(ts@),
{
    let r = read_clock();
    let ts = timestamp_for(&r);
    assert(stamp_text(r) == ts@);
    ts
}

} // verus!

//! Trusted boundary to the timezone database.
//!
//! The library models a timezone as its IANA name and a calendar date as a
//! day count since the common era; what a given zone does with a given
//! date or instant is decided by `chrono` and `chrono-tz`.  Every result
//! below except "today" is a function of its arguments alone, so it is
//! given an uninterpreted name that the conversion contracts are stated
//! over.

use vstd::prelude::*;

verus! {

/// Whether the name denotes a timezone known to `chrono_tz`.
pub uninterp spec fn zone_known(name: Seq<char>) -> bool;

/// The UTC timestamp, in seconds, of the wall-clock time `hour:minute` on
/// the date `days` (days since the common era) in the zone, or `None`
/// when that local time does not exist uniquely there or the date is out
/// of range.
pub uninterp spec fn zone_local_to_utc(
    zone: Seq<char>,
    days: int,
    hour: int,
    minute: int,
) -> Option<int>;

/// The local wall-clock hour and minute in the zone at a UTC instant.
pub uninterp spec fn zone_clock_at(zone: Seq<char>, utc_secs: int) -> (int, int);

/// The zone's display abbreviation at a UTC instant (for example `GMT`,
/// `EST`, or a numeric offset where the zone has no abbreviation).
pub uninterp spec fn zone_abbrev_at(zone: Seq<char>, utc_secs: int) -> Seq<char>;

/// Whether a second count is within the instant range `chrono` represents.
pub uninterp spec fn utc_representable(secs: int) -> bool;

/// Relies on `chrono_tz::Tz::from_str`: parsing succeeds exactly for the
/// IANA zone names the crate's database holds.
#[verifier::external_body]
pub(crate) fn zone_is_known(name: &str) -> (b: bool)
    ensures
        b == zone_known(name@),
{
    name.parse::<chrono_tz::Tz>().is_ok()
}

/// Relies on `chrono::Utc::now` and `TimeZone::from_utc_datetime`:
/// today's calendar date in the zone, read at UTC midnight of the current
/// UTC date.  The result depends on the wall clock, so nothing further is
/// promised of it.
#[verifier::external_body]
pub(crate) fn zone_today(zone: &str) -> (days: i64)
    requires
        zone_known(zone@),
{
    let tz: chrono_tz::Tz = match zone.parse() {
        Ok(tz) => tz,
        Err(_) => chrono_tz::Tz::UTC,
    };
    let utc_midnight = chrono::Utc::now().date_naive().and_hms_opt(0, 0, 0).unwrap();
    chrono::Datelike::num_days_from_ce(&chrono::TimeZone::from_utc_datetime(&tz, &utc_midnight).date_naive()) as i64
}

/// Relies on `chrono::TimeZone::from_local_datetime` (via `chrono_tz`) and
/// `DateTime::timestamp`: combining a date and wall-clock time in a zone
/// yields a single UTC instant, or nothing when the zone's rules make
/// that reading absent or ambiguous on that date; the outcome is a
/// function of the arguments alone.  A produced timestamp comes from a
/// representable `chrono` instant.
#[verifier::external_body]
pub(crate) fn zone_combine(zone: &str, days: i64, hour: u32, minute: u32) -> (r: Option<i64>)
    requires
        zone_known(zone@),
        hour < 24,
        minute < 60,
    ensures
        (match r {
            Some(t) => Some(t as int),
            None => None,
        }) == zone_local_to_utc(zone@, days as int, hour as int, minute as int),
        r matches Some(t) ==> utc_representable(t as int),
{
    let tz: chrono_tz::Tz = zone.parse().ok()?;
    let days32 = i32::try_from(days).ok()?;
    let date = chrono::NaiveDate::from_num_days_from_ce_opt(days32)?;
    let time = chrono::NaiveTime::from_hms_opt(hour, minute, 0)?;
    chrono::TimeZone::from_local_datetime(&tz, &date.and_time(time)).single().map(|dt| dt.timestamp())
}

/// Relies on `chrono::DateTime::from_timestamp`, `DateTime::with_timezone`
/// and `Timelike`: the local hour (below 24) and minute (below 60) in the
/// zone at a UTC instant, a function of zone and instant alone; absent
/// exactly when the instant is outside the representable range.
#[verifier::external_body]
pub(crate) fn zone_clock(zone: &str, utc_secs: i64) -> (r: Option<(u32, u32)>)
    requires
        zone_known(zone@),
    ensures
        r is Some <==> utc_representable(utc_secs as int),
        r matches Some(hm) ==> (hm.0 as int, hm.1 as int) == zone_clock_at(zone@, utc_secs as int)
            && hm.0 < 24 && hm.1 < 60,
{
    let tz: chrono_tz::Tz = zone.parse().ok()?;
    let dt = chrono::DateTime::from_timestamp(utc_secs, 0)?;
    let local = dt.with_timezone(&tz);
    Some((chrono::Timelike::hour(&local), chrono::Timelike::minute(&local)))
}

/// Relies on `chrono`'s `%Z` formatting of a `chrono_tz` offset: the
/// zone's display abbreviation at a UTC instant, a function of zone and
/// instant alone; absent exactly when the instant is outside the
/// representable range.
#[verifier::external_body]
pub(crate) fn zone_abbrev(zone: &str, utc_secs: i64) -> (r: Option<String>)
    requires
        zone_known(zone@),
    ensures
        r is Some <==> utc_representable(utc_secs as int),
        r matches Some(s) ==> s@ == zone_abbrev_at(zone@, utc_secs as int),
{
    let tz: chrono_tz::Tz = zone.parse().ok()?;
    let dt = chrono::DateTime::from_timestamp(utc_secs, 0)?;
    Some(format!("{}", dt.with_timezone(&tz).format("%Z")))
}

} // verus!

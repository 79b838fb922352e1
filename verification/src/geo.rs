use chrono::{Offset, TimeZone};
use vstd::prelude::*;

use crate::dates::LocalDateTime;
use crate::text::{concat2, owned};

verus! {

/// What chrono-tz gives for the zone named `tz_name` at the given local time:
/// `None` when it knows no zone of that name; `Some(None)` when the local time
/// does not exist there (it falls in a gap), or when the instant in UTC that it
/// stands for (the local time less the offset) lies outside the range of dates
/// that chrono can hold; else the offset from UTC, in seconds, of the earliest
/// instant with that local time.
pub uninterp spec fn zone_offset_at(
    tz_name: Seq<char>,
    year: i32,
    month: u32,
    day: u32,
    hour: u32,
    minute: u32,
    second: u32,
) -> Option<Option<i32>>;

/// What the time-zone database says of a local time in a zone.
#[derive(Debug, Clone, Copy, PartialEq, Eq, Structural)]
pub enum ZoneLookup {
    UnknownZone,
    Nonexistent,
    Offset(i32),
}

/// Parses `tz_name` as a `chrono_tz::Tz`, then takes
/// `from_local_datetime(..).earliest()` and its offset in seconds
/// (`offset().fix().local_minus_utc()`). The result is named `zone_offset_at`;
/// a `FixedOffset` lies strictly within a day either way of UTC, which is stated.
#[verifier::external_body]
fn zone_lookup(tz_name: &str, local: &LocalDateTime) -> (r: ZoneLookup)
    requires
        local.valid(),
    ensures
        match zone_offset_at(
            tz_name@,
            local.date.year,
            local.date.month,
            local.date.day,
            local.time.hour,
            local.time.minute,
            local.time.second,
        ) {
            None => r == ZoneLookup::UnknownZone,
            Some(None) => r == ZoneLookup::Nonexistent,
            Some(Some(o)) => r == ZoneLookup::Offset(o),
        },
        r matches ZoneLookup::Offset(o) ==> -86_400 < o < 86_400,
{
    let tz: chrono_tz::Tz = match tz_name.parse() {
        Ok(tz) => tz,
        Err(_) => return ZoneLookup::UnknownZone,
    };
    let naive = chrono::NaiveDate::from_ymd_opt(local.date.year, local.date.month, local.date.day)
        .and_then(|d| d.and_hms_opt(local.time.hour, local.time.minute, local.time.second))
        .unwrap();
    match tz.from_local_datetime(&naive).earliest() {
        Some(dt) => ZoneLookup::Offset(dt.offset().fix().local_minus_utc()),
        None => ZoneLookup::Nonexistent,
    }
}

/// The offset that a lookup in the zone named `tz_name` found, or the error to
/// report: "Unsupported timezone: <name>" for a name that no zone has, and a
/// message for a local time that a DST change skips.
pub fn offset_or_error(tz_name: &str, lookup: ZoneLookup) -> (r: Result<i32, String>)
    ensures
        match lookup {
            ZoneLookup::UnknownZone => r matches Err(m) && m@ == "Unsupported timezone: "@
                + tz_name@,
            ZoneLookup::Nonexistent => r matches Err(m) && m@
                == "The provided local time is non-existent due to a DST transition."@,
            ZoneLookup::Offset(o) => r == Ok::<i32, String>(o),
        },
{
    match lookup {
        ZoneLookup::UnknownZone => Err(concat2("Unsupported timezone: ", tz_name)),
        ZoneLookup::Nonexistent => Err(
            owned("The provided local time is non-existent due to a DST transition."),
        ),
        ZoneLookup::Offset(o) => Ok(o),
    }
}

/// The offset from UTC, in seconds, of the zone named `tz_name` at the given
/// local time, or the error to report (see `offset_or_error`).
pub fn resolve_utc_offset(tz_name: &str, local: &LocalDateTime) -> (r: Result<i32, String>)
    requires
        local.valid(),
    ensures
        match zone_offset_at(
            tz_name@,
            local.date.year,
            local.date.month,
            local.date.day,
            local.time.hour,
            local.time.minute,
            local.time.second,
        ) {
            None => r matches Err(m) && m@ == "Unsupported timezone: "@ + tz_name@,
            Some(None) => r matches Err(m) && m@
                == "The provided local time is non-existent due to a DST transition."@,
            Some(Some(o)) => r == Ok::<i32, String>(o),
        },
{
    let lookup = zone_lookup(tz_name, local);
    offset_or_error(tz_name, lookup)
}

/// The address of the geocoding query for `city`.
pub fn nominatim_url(city: &str) -> (r: String)
    ensures
        r@ == "https://nominatim.openstreetmap.org/search?q="@ + city@
            + "&format=json&limit=1"@,
{
    let mut r = concat2("https://nominatim.openstreetmap.org/search?q=", city);
    crate::text::push_str(&mut r, "&format=json&limit=1");
    r
}

/// The error for a city that the geocoder does not find.
pub fn city_not_found(city: &str) -> (r: String)
    ensures
        r@ == "City not found: "@ + city@,
{
    concat2("City not found: ", city)
}

} // verus!

//! The conversions between a parsed wall-clock date-time and an absolute
//! instant (seconds since the Unix epoch), and the interchange rendering of
//! an instant. They are the only places where the library leans on the
//! chrono and chrono-tz crates.
use vstd::prelude::*;
use crate::timestamp::Stamp;
use chrono::TimeZone;

verus! {

/// The instant (epoch seconds) of a wall-clock date-time read in the
/// Eastern-US zone, or nothing when the zone's daylight-saving rules make
/// that wall-clock time ambiguous or skipped.
pub uninterp spec fn eastern_epoch_of(y: int, mo: int, d: int, h: int, mi: int, s: int) -> Option<
    i64,
>;

/// Relies on chrono_tz's America/New_York with chrono's
/// TimeZone::from_local_datetime: the zone's rules are fixed tables, so the
/// instant of a wall-clock date-time depends on the six fields alone; an
/// ambiguous or skipped wall-clock time (a daylight-saving transition)
/// yields no single instant.
#[verifier::external_body]
pub(crate) fn eastern_epoch(st: &Stamp) -> (r: Option<i64>)
    requires
        st.wf(),
    ensures
        r == eastern_epoch_of(
            st.year as int,
            st.month as int,
            st.day as int,
            st.hour as int,
            st.minute as int,
            st.second as int,
        ),
{
    let dt = chrono::NaiveDate::from_ymd_opt(st.year, st.month, st.day).and_then(
        |d| d.and_hms_opt(st.hour, st.minute, st.second),
    )?;
    chrono_tz::America::New_York.from_local_datetime(&dt).single().map(|t| t.timestamp())
}

/// Relies on chrono's Local::from_local_datetime: the instant of a
/// wall-clock date-time read in the process's local zone, or nothing when
/// that zone makes it ambiguous or skipped. The zone depends on the machine,
/// so nothing is promised of the result.
#[verifier::external_body]
pub(crate) fn local_epoch(st: &Stamp) -> (r: Option<i64>)
    requires
        st.wf(),
{
    let dt = chrono::NaiveDate::from_ymd_opt(st.year, st.month, st.day).and_then(
        |d| d.and_hms_opt(st.hour, st.minute, st.second),
    )?;
    chrono::Local.from_local_datetime(&dt).single().map(|t| t.timestamp())
}

/// Relies on chrono's TimeZone::timestamp_opt and DateTime::to_rfc3339: the
/// given instant rendered as an RFC 3339 text in the process's local zone,
/// or an empty text for an instant out of chrono's range. The zone depends
/// on the machine, so nothing is promised of the text.
#[verifier::external_body]
pub(crate) fn local_rfc3339(epoch: i64) -> (r: String)
{
    match chrono::Local.timestamp_opt(epoch, 0) {
        chrono::LocalResult::Single(t) => t.to_rfc3339(),
        _ => String::new(),
    }
}

} // verus!

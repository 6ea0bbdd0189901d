//! Clock readings, time zones and the rendering of instants, through
//! `chrono` and `chrono-tz`.
use std::fmt::Write;
use vstd::prelude::*;

verus! {

/// Whether the IANA time zone database compiled into `chrono-tz` knows
/// `name`.
pub uninterp spec fn tz_known(name: Seq<char>) -> bool;

/// The instant `epoch_seconds` (Unix seconds) shown in time zone `zone`
/// through the `chrono` format string `pattern`; `None` when the zone is
/// unknown, the instant is outside `chrono`'s range, or the pattern is
/// malformed.
pub uninterp spec fn local_time_text(epoch_seconds: i64, zone: Seq<char>, pattern: Seq<char>) -> Option<
    Seq<char>,
>;

/// The instant `secs` seconds and `nanos` nanoseconds after the Unix epoch,
/// in time zone `zone`, as RFC 3339 text (`DateTime::to_rfc3339`); `None`
/// when the zone is unknown or the instant is outside `chrono`'s range.
pub uninterp spec fn rfc3339_text(secs: i64, nanos: u32, zone: Seq<char>) -> Option<Seq<char>>;

/// Instants, in Unix seconds, well inside what `chrono` represents: about
/// 253,000 years either side of 1970 (its dates run from year -262143 to
/// year 262142).
pub open spec fn in_chrono_range(secs: int) -> bool {
    -8_000_000_000_000 <= secs <= 8_000_000_000_000
}

/// Looks `name` up with `<chrono_tz::Tz as FromStr>::from_str`, whose table
/// holds "UTC"; on failure the text is the display of `chrono_tz`'s
/// `ParseError`, "failed to parse timezone".
#[verifier::external_body]
pub(crate) fn parse_timezone(name: &str) -> (r: Result<(), String>)
    ensures
        r is Ok <==> tz_known(name@),
        name@ == "UTC"@ ==> r is Ok,
        r matches Err(m) ==> m@ == "failed to parse timezone"@,
{
    name.parse::<chrono_tz::Tz>().map(|_| ()).map_err(|e| e.to_string())
}

/// Parses the zone with `chrono_tz`, makes the instant with
/// `chrono::DateTime::from_timestamp(epoch_seconds, 0)` and writes it with
/// `DateTime::format(pattern)` into a `String`. The text is named by
/// `local_time_text`. An unknown zone gives `None`; a known zone (or
/// "UTC"), the date/time section's pattern and an instant in range give
/// `Some`, since `from_timestamp` accepts every such instant and writing
/// those fields into a `String` cannot fail.
#[verifier::external_body]
pub(crate) fn format_local_time(epoch_seconds: i64, zone: &str, pattern: &str) -> (r: Option<String>)
    ensures
        r.deep_view() == local_time_text(epoch_seconds, zone@, pattern@),
        !tz_known(zone@) ==> r is None,
        (tz_known(zone@) || zone@ == "UTC"@) && pattern@ == "%Y-%m-%d %H:%M"@ && in_chrono_range(
            epoch_seconds as int,
        ) ==> r is Some,
{
    let tz: chrono_tz::Tz = zone.parse().ok()?;
    let instant = chrono::DateTime::from_timestamp(epoch_seconds, 0)?;
    let mut out = String::new();
    match write!(out, "{}", instant.with_timezone(&tz).format(pattern)) {
        Ok(()) => Some(out),
        Err(_) => None,
    }
}

/// Parses the zone with `chrono_tz`, makes the instant with
/// `chrono::DateTime::from_timestamp(secs, nanos)` and renders it with
/// `with_timezone(..).to_rfc3339()`; the text is named by `rfc3339_text`.
/// An unknown zone gives `None`; a known zone, an instant in range and
/// fewer than 10^9 nanoseconds give `Some`.
#[verifier::external_body]
pub(crate) fn rfc3339_in(secs: i64, nanos: u32, zone: &str) -> (r: Option<String>)
    ensures
        r.deep_view() == rfc3339_text(secs, nanos, zone@),
        !tz_known(zone@) ==> r is None,
        tz_known(zone@) && in_chrono_range(secs as int) && nanos < 1_000_000_000 ==> r is Some,
{
    let tz: chrono_tz::Tz = zone.parse().ok()?;
    let instant = chrono::DateTime::from_timestamp(secs, nanos)?;
    Some(instant.with_timezone(&tz).to_rfc3339())
}

/// Reads the system clock with `SystemTime::now` and
/// `duration_since(UNIX_EPOCH)`: `Ok` with the whole seconds and the
/// nanoseconds after the epoch, or `Err` with those before it when the
/// clock is set earlier (from `SystemTimeError::duration`). `Duration`
/// documents its sub-second nanoseconds as less than 10^9; the reading
/// itself depends on the clock, so nothing else is promised.
#[verifier::external_body]
fn clock_reading() -> (r: Result<(u64, u32), (u64, u32)>)
    ensures
        r matches Ok(p) ==> p.1 < 1_000_000_000,
        r matches Err(p) ==> p.1 < 1_000_000_000,
{
    match std::time::SystemTime::now().duration_since(std::time::UNIX_EPOCH) {
        Ok(d) => Ok((d.as_secs(), d.subsec_nanos())),
        Err(e) => Err((e.duration().as_secs(), e.duration().subsec_nanos())),
    }
}

/// The current time as Unix seconds (rounded down) and nanoseconds within
/// the second; `None` when the clock reads beyond what 64-bit seconds hold.
pub fn unix_time_now() -> (r: Option<(i64, u32)>)
    ensures
        r matches Some(p) ==> p.1 < 1_000_000_000,
{
    match clock_reading() {
        Ok((secs, nanos)) => {
            if secs <= i64::MAX as u64 {
                Some((secs as i64, nanos))
            } else {
                None
            }
        },
        Err((secs, nanos)) => {
            if secs >= i64::MAX as u64 {
                None
            } else if nanos == 0 {
                Some((-(secs as i64), 0))
            } else {
                Some((-(secs as i64) - 1, 1_000_000_000 - nanos))
            }
        },
    }
}

} // verus!

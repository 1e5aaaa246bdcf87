//! The computations behind the human-readable rendering of messages: the
//! calendar fields of a time stamp and the form in which an IE payload that
//! has no rendering of its own is shown.
use vstd::prelude::*;

verus! {

/// Seconds in a day.
pub const SECONDS_PER_DAY: u64 = 86400;

/// A Gregorian leap year.
pub open spec fn is_leap_year(y: nat) -> bool {
    y % 4 == 0 && (y % 100 != 0 || y % 400 == 0)
}

/// The number of days of year `y`.
pub open spec fn days_in_year(y: nat) -> nat {
    if is_leap_year(y) {
        366
    } else {
        365
    }
}

/// Counting whole years from `year` on: the year reached and the days left
/// over. A year is counted while at least 365 days are left and they cover it.
pub open spec fn count_years(year: nat, days: nat) -> (nat, nat)
    decreases days,
{
    if days >= 365 && days >= days_in_year(year) {
        count_years(year + 1, (days - days_in_year(year)) as nat)
    } else {
        (year, days)
    }
}

/// The calendar fields shown for a time stamp.
#[derive(Debug, Clone, Copy, PartialEq, Eq, Structural)]
pub struct Calendar {
    pub year: u64,
    pub month: u64,
    pub day: u64,
    pub hour: u64,
    pub minute: u64,
    pub second: u64,
}

/// The calendar fields for `secs` seconds after 1970-01-01 00:00:00 UTC. The
/// year is counted exactly; the days left in it are split into months of 30
/// days, the month capped at 12.
pub open spec fn calendar_of(secs: nat) -> Calendar {
    let days = secs / 86400;
    let rem = secs % 86400;
    let (year, left) = count_years(1970, days);
    let month: nat = left / 30 + 1;
    Calendar {
        year: year as u64,
        month: if month > 12 { 12 } else { month as u64 },
        day: (left % 30 + 1) as u64,
        hour: (rem / 3600) as u64,
        minute: ((rem % 3600) / 60) as u64,
        second: (rem % 60) as u64,
    }
}

/// Counting years never goes back and uses at most the days given.
proof fn lemma_count_years_bounds(year: nat, days: nat)
    ensures
        count_years(year, days).0 >= year,
        count_years(year, days).0 <= year + days,
        count_years(year, days).1 <= days,
    decreases days,
{
    if days >= 365 && days >= days_in_year(year) {
        lemma_count_years_bounds(year + 1, (days - days_in_year(year)) as nat);
    }
}

/// Whether `y` is a leap year.
pub fn is_leap(y: u64) -> (r: bool)
    ensures
        r == is_leap_year(y as nat),
{
    y % 4 == 0 && (y % 100 != 0 || y % 400 == 0)
}

/// The number of days of year `y`.
pub fn year_length(y: u64) -> (r: u64)
    ensures
        r == days_in_year(y as nat),
{
    if is_leap(y) {
        366
    } else {
        365
    }
}

/// The calendar fields for `secs` seconds after the Unix epoch.
pub fn calendar_of_unix_seconds(secs: u64) -> (r: Calendar)
    ensures
        r == calendar_of(secs as nat),
{
    let days = secs / SECONDS_PER_DAY;
    let rem = secs % SECONDS_PER_DAY;
    let mut year: u64 = 1970;
    let mut left: u64 = days;
    proof {
        lemma_count_years_bounds(1970, days as nat);
    }
    while left >= 365 && left >= year_length(year)
        invariant
            count_years(1970, days as nat) == count_years(year as nat, left as nat),
            1970 <= year <= 1970 + days - left,
            left <= days,
            days <= u64::MAX / 86400,
        decreases left,
    {
        left = left - year_length(year);
        year = year + 1;
    }
    let month: u64 = left / 30 + 1;
    Calendar {
        year,
        month: if month > 12 { 12 } else { month },
        day: left % 30 + 1,
        hour: rem / 3600,
        minute: (rem % 3600) / 60,
        second: rem % 60,
    }
}

/// How a payload without a rendering of its own is shown: its octets in
/// hexadecimal when there are at most 32 of them, else only its size.
pub open spec fn payload_shown_as_hex(len: nat) -> bool {
    len <= 32
}

/// Whether a payload of `len` octets is shown in hexadecimal.
pub fn show_payload_as_hex(len: usize) -> (r: bool)
    ensures
        r == payload_shown_as_hex(len as nat),
{
    len <= 32
}

/// The name shown for a Report Type IE payload: the report that its first
/// octet names (DLDR, USAR, ERIR or UPIR when exactly that flag is set,
/// "Unknown" for any other octet), and nothing for an empty payload.
pub open spec fn report_type_name_of(payload: Seq<u8>) -> Option<Seq<char>> {
    if payload.len() == 0 {
        None
    } else if payload[0] == 0x01 {
        Some("DLDR (Downlink Data Report)"@)
    } else if payload[0] == 0x02 {
        Some("USAR (Usage Report)"@)
    } else if payload[0] == 0x04 {
        Some("ERIR (Error Indication Report)"@)
    } else if payload[0] == 0x08 {
        Some("UPIR (User Plane Inactivity Report)"@)
    } else {
        Some("Unknown"@)
    }
}

/// The name shown for a Report Type IE payload.
pub fn report_type_name(payload: &[u8]) -> (r: Option<&'static str>)
    ensures
        match report_type_name_of(payload@) {
            Some(n) => r is Some && r->Some_0@ == n,
            None => r is None,
        },
{
    if payload.len() == 0 {
        return None;
    }
    let name = match payload[0] {
        0x01 => "DLDR (Downlink Data Report)",
        0x02 => "USAR (Usage Report)",
        0x04 => "ERIR (Error Indication Report)",
        0x08 => "UPIR (User Plane Inactivity Report)",
        _ => "Unknown",
    };
    Some(name)
}

} // verus!

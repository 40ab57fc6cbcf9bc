use vstd::prelude::*;
use vstd::arithmetic::div_mod::{lemma_fundamental_div_mod, lemma_fundamental_div_mod_converse};
use kovi::chrono::{Local, TimeZone};

verus! {

/// Seconds in one day.
pub const SECS_PER_DAY: i64 = 86400;

/// A local calendar date, as the number of days since 1970-01-01.
#[derive(Clone, Copy, Debug, PartialEq, Eq, Structural)]
pub struct LocalDate {
    pub days: i64,
}

/// Days beyond which a date lies outside the calendar the library handles.
pub const MAX_DATE_DAYS: i64 = 100_000_000;

/// Local wall-clock seconds of an instant under a UTC offset.
pub open spec fn local_seconds(ts: int, offset: int) -> int {
    ts + offset
}

/// The local calendar day (days since 1970-01-01) of an instant.
pub open spec fn local_day(ts: int, offset: int) -> int {
    local_seconds(ts, offset) / (SECS_PER_DAY as int)
}

/// The local hour of an instant, 0 to 23.
pub open spec fn hour_of_day(ts: int, offset: int) -> int {
    (local_seconds(ts, offset) % (SECS_PER_DAY as int)) / 3600
}

/// The local weekday of an instant, 0 for Sunday to 6 for Saturday
/// (1970-01-01 was a Thursday).
pub open spec fn day_of_week(ts: int, offset: int) -> int {
    (local_day(ts, offset) + 4) % 7
}

/// Relies on chrono's `Local::now`: the current Unix time in seconds.
#[verifier::external_body]
pub(crate) fn unix_now() -> (r: i64) {
    Local::now().timestamp()
}

/// Relies on chrono's `Local::timestamp_opt`: the local UTC offset, in seconds, at an
/// instant when it is unambiguous. chrono keeps every offset strictly within one day.
#[verifier::external_body]
pub(crate) fn local_offset_at(ts: i64) -> (r: Option<i32>)
    ensures
        r matches Some(o) ==> -86400 < o < 86400,
{
    Local.timestamp_opt(ts, 0).single().map(|dt| dt.offset().local_minus_utc())
}

/// Relies on chrono's `Local::from_local_datetime`: the UTC offset, in seconds, in
/// effect at a local wall-clock time (seconds since 1970-01-01 00:00 local), when
/// that time exists and is unambiguous. chrono keeps every offset strictly within
/// one day.
#[verifier::external_body]
pub(crate) fn local_offset_for(local_secs: i64) -> (r: Option<i32>)
    ensures
        r matches Some(o) ==> -86400 < o < 86400,
{
    kovi::chrono::DateTime::from_timestamp(local_secs, 0)
        .and_then(|d| Local.from_local_datetime(&d.naive_utc()).single())
        .map(|dt| dt.offset().local_minus_utc())
}

/// Floor division and its non-negative remainder.
pub fn floor_div_mod(x: i128, m: i128) -> (r: (i128, i128))
    requires
        0 < m,
        i128::MIN < x,
    ensures
        r.0 == x / m,
        r.1 == x % m,
{
    if x >= 0 {
        proof {
            lemma_fundamental_div_mod(x as int, m as int);
        }
        (x / m, x % m)
    } else {
        let y: i128 = -x;
        let q = y / m;
        let s = y % m;
        proof {
            lemma_fundamental_div_mod(y as int, m as int);
            assert(0 <= s < m);
            assert(q >= 0);
            assert(q * m <= y) by (nonlinear_arith)
                requires y == m * q + s, 0 <= s;
        }
        if s == 0 {
            proof {
                assert(x == (-q) * m + 0) by (nonlinear_arith)
                    requires y == m * q + s, s == 0, x == -y;
                lemma_fundamental_div_mod_converse(x as int, m as int, -q as int, 0);
            }
            (-q, 0)
        } else {
            proof {
                assert(x == (-q - 1) * m + (m - s)) by (nonlinear_arith)
                    requires y == m * q + s, x == -y;
                lemma_fundamental_div_mod_converse(x as int, m as int, (-q - 1) as int, (m - s) as int);
            }
            (-q - 1, m - s)
        }
    }
}

/// The local hour and weekday of an instant under a UTC offset.
pub fn local_time_fields(ts: i64, offset: i32) -> (r: (i32, i32))
    requires
        -86400 < offset < 86400,
    ensures
        r.0 as int == hour_of_day(ts as int, offset as int),
        r.1 as int == day_of_week(ts as int, offset as int),
        0 <= r.0 < 24,
        0 <= r.1 < 7,
{
    let l: i128 = ts as i128 + offset as i128;
    let (day, sod) = floor_div_mod(l, 86400);
    let (_, dow) = floor_div_mod(day + 4, 7);
    ((sod / 3600) as i32, dow as i32)
}

/// The local hour and weekday an event is stored with: those of its own time
/// under the offset in effect then; failing that, those of the current time
/// under its offset, or under UTC when that is unknown too.
pub open spec fn stored_time_fields(ts: i64, offset: Option<i32>, now: i64, now_offset: Option<i32>) -> (int, int) {
    match offset {
        Some(o) => (hour_of_day(ts as int, o as int), day_of_week(ts as int, o as int)),
        None => match now_offset {
            Some(o) => (hour_of_day(now as int, o as int), day_of_week(now as int, o as int)),
            None => (hour_of_day(now as int, 0), day_of_week(now as int, 0)),
        },
    }
}

/// The local hour and weekday of an event, given the offset found for its time
/// and, for the fallback, the current time and its offset.
pub fn fields_with_fallback(ts: i64, offset: Option<i32>, now: i64, now_offset: Option<i32>) -> (r: (i32, i32))
    requires
        offset matches Some(o) ==> -86400 < o < 86400,
        now_offset matches Some(o) ==> -86400 < o < 86400,
    ensures
        (r.0 as int, r.1 as int) == stored_time_fields(ts, offset, now, now_offset),
        0 <= r.0 < 24,
        0 <= r.1 < 7,
{
    match offset {
        Some(o) => local_time_fields(ts, o),
        None => match now_offset {
            Some(o) => local_time_fields(now, o),
            None => local_time_fields(now, 0),
        },
    }
}

/// The local hour and weekday of an event time. Where the local offset at that
/// instant is unknown, the current time stands in for it.
pub fn event_time_fields(ts: i64) -> (r: (i32, i32))
    ensures
        exists|offset: Option<i32>, now: i64, now_offset: Option<i32>| {
            &&& (offset matches Some(o) ==> -86400 < o < 86400)
            &&& (now_offset matches Some(o) ==> -86400 < o < 86400)
            &&& (r.0 as int, r.1 as int) == #[trigger] stored_time_fields(ts, offset, now, now_offset)
        },
        0 <= r.0 < 24,
        0 <= r.1 < 7,
{
    let offset = local_offset_at(ts);
    match offset {
        Some(_) => fields_with_fallback(ts, offset, ts, offset),
        None => {
            let now = unix_now();
            let now_offset = local_offset_at(now);
            fields_with_fallback(ts, offset, now, now_offset)
        },
    }
}

/// Local wall-clock seconds of midnight starting a date.
pub open spec fn day_start_local(d: LocalDate) -> int {
    d.days * 86400
}

/// Local wall-clock seconds of 23:59:59 ending a date.
pub open spec fn day_end_local(d: LocalDate) -> int {
    d.days * 86400 + 86399
}

/// The inclusive Unix-time range from local midnight of `start` to local 23:59:59
/// of `end`, given the UTC offsets in effect at those two wall-clock times. A start
/// whose local time does not exist (or is ambiguous) opens the range at 0; such an
/// end closes it at the largest timestamp.
pub open spec fn local_range(start: LocalDate, end: LocalDate, start_offset: Option<i32>, end_offset: Option<i32>) -> (i64, i64) {
    (
        match start_offset {
            Some(o) => (day_start_local(start) - o) as i64,
            None => 0,
        },
        match end_offset {
            Some(o) => (day_end_local(end) - o) as i64,
            None => i64::MAX,
        },
    )
}

/// The range bounds of two local dates under the given UTC offsets.
pub fn range_for_offsets(start: LocalDate, end: LocalDate, start_offset: Option<i32>, end_offset: Option<i32>) -> (r: (i64, i64))
    requires
        -MAX_DATE_DAYS <= start.days <= MAX_DATE_DAYS,
        -MAX_DATE_DAYS <= end.days <= MAX_DATE_DAYS,
        start_offset matches Some(o) ==> -86400 < o < 86400,
        end_offset matches Some(o) ==> -86400 < o < 86400,
    ensures
        r == local_range(start, end, start_offset, end_offset),
{
    let s = match start_offset {
        Some(o) => start.days * SECS_PER_DAY - o as i64,
        None => 0,
    };
    let e = match end_offset {
        Some(o) => end.days * SECS_PER_DAY + 86399 - o as i64,
        None => i64::MAX,
    };
    (s, e)
}

/// Converts a pair of local calendar dates into the inclusive Unix-time range
/// from local midnight of `start` to local 23:59:59 of `end`, under the offsets
/// the local time zone has at those two wall-clock times.
pub fn date_range_to_timestamps(start: LocalDate, end: LocalDate) -> (r: (i64, i64))
    requires
        -MAX_DATE_DAYS <= start.days <= MAX_DATE_DAYS,
        -MAX_DATE_DAYS <= end.days <= MAX_DATE_DAYS,
    ensures
        exists|so: Option<i32>, eo: Option<i32>| {
            &&& (so matches Some(o) ==> -86400 < o < 86400)
            &&& (eo matches Some(o) ==> -86400 < o < 86400)
            &&& r == #[trigger] local_range(start, end, so, eo)
        },
{
    let so = local_offset_for(start.days * SECS_PER_DAY);
    let eo = local_offset_for(end.days * SECS_PER_DAY + 86399);
    range_for_offsets(start, end, so, eo)
}

/// Date-range law: under a fixed UTC offset, the range built for the dates
/// `start..=end` holds exactly the instants whose local calendar day lies
/// between them; for a single date, exactly the instants of that local day.
pub proof fn date_range_covers_local_days(start: LocalDate, end: LocalDate, offset: i32, t: int)
    requires
        -MAX_DATE_DAYS <= start.days <= MAX_DATE_DAYS,
        -MAX_DATE_DAYS <= end.days <= MAX_DATE_DAYS,
        -86400 < offset < 86400,
    ensures
        (local_range(start, end, Some(offset), Some(offset)).0 <= t <= local_range(start, end, Some(offset), Some(offset)).1)
            <==> (start.days <= local_day(t, offset as int) <= end.days),
{
    let l = t + offset;
    lemma_fundamental_div_mod(l, 86400);
    let d = l / 86400;
    let s = l % 86400;
    assert(0 <= s < 86400);
    if start.days <= d {
        assert(start.days * 86400 <= d * 86400) by (nonlinear_arith)
            requires start.days <= d;
    } else {
        assert(d * 86400 + 86400 <= start.days * 86400) by (nonlinear_arith)
            requires d < start.days;
    }
    if d <= end.days {
        assert(d * 86400 <= end.days * 86400) by (nonlinear_arith)
            requires d <= end.days;
    } else {
        assert(end.days * 86400 + 86400 <= d * 86400) by (nonlinear_arith)
            requires end.days < d;
    }
}

} // verus!

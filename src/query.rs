use vstd::prelude::*;
use crate::clock::{unix_now, SECS_PER_DAY};
use crate::limits::{MAX_QUERY_DAYS, MAX_RANK_SCAN_USERS};

verus! {

/// How often a keyword occurs.
#[derive(Clone, Debug)]
pub struct WordCount {
    pub word: String,
    pub count: i64,
}

/// A sender's message count with display name.
#[derive(Clone, Debug)]
pub struct UserActivity {
    pub user_id: i64,
    pub nickname: String,
    pub message_count: i64,
}

/// Messages in one local hour of the day.
#[derive(Clone, Copy, Debug, PartialEq, Eq, Structural)]
pub struct HourlyStats {
    pub hour: i32,
    pub count: i64,
}

/// Messages on one local calendar day.
#[derive(Clone, Debug)]
pub struct DailyStats {
    pub date: String,
    pub count: i64,
}

/// Whole-store counts.
#[derive(Clone, Copy, Debug, PartialEq, Eq, Structural)]
pub struct StorageStats {
    pub total_messages: u64,
    pub total_keywords: u64,
    pub total_users: u64,
    pub groups_tracked: u64,
}

/// Messages by feature.
#[derive(Clone, Copy, Debug, PartialEq, Eq, Structural)]
pub struct MessageTypeStats {
    pub text_only: i64,
    pub with_image: i64,
    pub with_at: i64,
    pub with_reply: i64,
    pub total: i64,
}

/// The smaller of a requested limit and a fixed maximum.
pub open spec fn bounded_limit(requested: u64, max: u64) -> u64 {
    if requested < max { requested } else { max }
}

/// A requested day window forced into `[0, MAX_QUERY_DAYS]`.
pub open spec fn bounded_days(days: i64) -> i64 {
    if days < 0 { 0 } else if days > MAX_QUERY_DAYS { MAX_QUERY_DAYS } else { days }
}

/// The first instant of a trailing window of `days` days ending at `now`,
/// never below the smallest timestamp.
pub open spec fn window_start(now: i64, days: i64) -> i64 {
    let s = now - bounded_days(days) * SECS_PER_DAY;
    if s < i64::MIN { i64::MIN } else { s as i64 }
}

/// The rows a limited query hands back: at most the bounded limit, in order.
pub open spec fn limited<T>(rows: Seq<T>, requested: u64, max: u64) -> Seq<T> {
    if rows.len() <= bounded_limit(requested, max) {
        rows
    } else {
        rows.take(bounded_limit(requested, max) as int)
    }
}

/// Clamps a caller's row limit to a fixed maximum.
pub fn clamp_limit(requested: u64, max: u64) -> (r: u64)
    ensures
        r == bounded_limit(requested, max),
{
    if requested < max { requested } else { max }
}

/// Clamps a caller's day window into `[0, MAX_QUERY_DAYS]`.
pub fn clamp_days(days: i64) -> (r: i64)
    ensures
        r == bounded_days(days),
{
    if days < 0 {
        0
    } else if days > MAX_QUERY_DAYS {
        MAX_QUERY_DAYS
    } else {
        days
    }
}

/// The first instant of the trailing window of `days` days ending at `now`.
pub fn trailing_window_start(now: i64, days: i64) -> (r: i64)
    ensures
        r == window_start(now, days),
{
    let d = clamp_days(days);
    if now < i64::MIN + MAX_QUERY_DAYS * SECS_PER_DAY {
        let s: i128 = now as i128 - (d as i128) * (SECS_PER_DAY as i128);
        if s < i64::MIN as i128 { i64::MIN } else { s as i64 }
    } else {
        now - d * SECS_PER_DAY
    }
}

/// The first instant of the trailing window of `days` days ending now.
pub fn trailing_window_start_now(days: i64) -> (r: i64)
    ensures
        exists|now: i64| r == #[trigger] window_start(now, days),
{
    let now = unix_now();
    trailing_window_start(now, days)
}

/// Cuts query rows down to the bounded limit, keeping their order.
pub fn limit_rows<T>(rows: Vec<T>, requested: u64, max: u64) -> (r: Vec<T>)
    ensures
        r@ == limited(rows@, requested, max),
{
    let lim = clamp_limit(requested, max);
    let mut out = rows;
    if (out.len() as u64) > lim {
        out.truncate(lim as usize);
        assert(out@ =~= rows@.take(lim as int));
    }
    out
}

/// Limit law: a limited query never hands back more rows than were requested,
/// nor more than the fixed maximum.
pub proof fn limited_rows_within_bounds<T>(rows: Seq<T>, requested: u64, max: u64)
    ensures
        limited(rows, requested, max).len() <= requested,
        limited(rows, requested, max).len() <= max,
        limited(rows, requested, max).len() <= rows.len(),
{
}

/// The heatmap count of a cell: the count of the last row for that weekday and
/// hour, or zero when no row names it.
pub open spec fn heat_cell(rows: Seq<(i32, i32, i64)>, dow: int, hour: int) -> i64
    decreases rows.len(),
{
    if rows.len() == 0 {
        0
    } else if rows.last().0 as int == dow && rows.last().1 as int == hour {
        rows.last().2
    } else {
        heat_cell(rows.drop_last(), dow, hour)
    }
}

/// Lays `(weekday, hour, count)` rows onto a 7 by 24 grid; rows outside the grid
/// are ignored and cells without a row stay zero.
pub fn heatmap_grid(rows: &Vec<(i32, i32, i64)>) -> (r: [[i64; 24]; 7])
    ensures
        forall|d: int, h: int| 0 <= d < 7 && 0 <= h < 24 ==> #[trigger] r[d][h] == heat_cell(rows@, d, h),
{
    let mut grid: [[i64; 24]; 7] = [[0i64; 24]; 7];
    let mut i: usize = 0;
    while i < rows.len()
        invariant
            i <= rows@.len(),
            forall|d: int, h: int| 0 <= d < 7 && 0 <= h < 24
                ==> #[trigger] grid[d][h] == heat_cell(rows@.subrange(0, i as int), d, h),
        decreases rows@.len() - i,
    {
        let (dow, hour, count) = rows[i];
        proof {
            let pre = rows@.subrange(0, i as int);
            let cur = rows@.subrange(0, i + 1);
            assert(cur.drop_last() =~= pre);
            assert(cur.last() == rows@[i as int]);
        }
        if 0 <= dow && dow < 7 && 0 <= hour && hour < 24 {
            let mut row = grid[dow as usize];
            row[hour as usize] = count;
            grid[dow as usize] = row;
        }
        i = i + 1;
    }
    assert(rows@.subrange(0, rows@.len() as int) =~= rows@);
    grid
}

/// The rank a sender holds when `greater` other senders in the group have more
/// messages, the count being capped at the scan bound; a sender with no
/// messages has no rank.
pub open spec fn rank_of(user_msg_count: i64, greater: i64) -> Option<i64> {
    if user_msg_count == 0 {
        None
    } else if greater < 0 {
        Some(1)
    } else if greater > MAX_RANK_SCAN_USERS {
        Some((MAX_RANK_SCAN_USERS + 1) as i64)
    } else {
        Some((greater + 1) as i64)
    }
}

/// A sender's rank in a group from the number of senders with strictly more messages.
pub fn calculate_user_rank(user_msg_count: i64, greater: i64) -> (r: Option<i64>)
    ensures
        r == rank_of(user_msg_count, greater),
{
    if user_msg_count == 0 {
        None
    } else if greater < 0 {
        Some(1)
    } else if greater > MAX_RANK_SCAN_USERS {
        Some(MAX_RANK_SCAN_USERS + 1)
    } else {
        Some(greater + 1)
    }
}

/// The senders of a group with strictly more messages than `count`.
pub open spec fn senders_above(counts: Map<i64, int>, count: int) -> Set<i64> {
    counts.dom().filter(|s: i64| counts[s] > count)
}

/// Rank law: when exactly `k` distinct senders of a group have strictly more
/// messages than a sender with `count` messages, that sender's rank is `k + 1`;
/// senders with equal counts therefore share a rank.
pub proof fn rank_is_one_more_than_senders_above(counts: Map<i64, int>, count: i64, k: i64)
    requires
        count > 0,
        senders_above(counts, count as int).len() == k,
        k <= MAX_RANK_SCAN_USERS,
    ensures
        rank_of(count, k) == Some((k + 1) as i64),
{
}

/// The percentage change from `previous` to `current`, as a fraction
/// `(numerator, denominator)` of one hundred percent: the relative change when
/// there was earlier activity, all of it when activity is new, none when there
/// is none.
pub open spec fn change_fraction(current: i64, previous: i64) -> (i64, i64) {
    if previous > 0 {
        ((current - previous) as i64, previous)
    } else if current > 0 {
        (1, 1)
    } else {
        (0, 1)
    }
}

/// The fraction from which the percentage change between two periods is
/// computed: `100 * r.0 / r.1`.
pub fn change_rate_terms(current: i64, previous: i64) -> (r: (i64, i64))
    requires
        current >= 0,
        previous >= 0,
    ensures
        r == change_fraction(current, previous),
        r.1 > 0,
{
    if previous > 0 {
        (current - previous, previous)
    } else if current > 0 {
        (1, 1)
    } else {
        (0, 1)
    }
}

/// The name shown for a sender: the stored user name, else the name captured with
/// the message, else empty.
pub fn display_name(user_nickname: Option<String>, sender_nickname: Option<String>) -> (r: String)
    ensures
        r@ == match user_nickname {
            Some(n) => n@,
            None => match sender_nickname {
                Some(n) => n@,
                None => Seq::<char>::empty(),
            },
        },
{
    match user_nickname {
        Some(n) => n,
        None => match sender_nickname {
            Some(n) => n,
            None => String::new(),
        },
    }
}

/// Whether position `i` holds the first largest count.
pub open spec fn is_first_max(rows: Seq<HourlyStats>, i: int) -> bool {
    &&& 0 <= i < rows.len()
    &&& forall|j: int| 0 <= j < rows.len() ==> #[trigger] rows[j].count <= rows[i].count
    &&& forall|j: int| 0 <= j < i ==> #[trigger] rows[j].count < rows[i].count
}

/// The most active hour: the hour of the first row with the largest count, or
/// none when there are no rows.
pub fn favorite_hour(rows: &Vec<HourlyStats>) -> (r: Option<i32>)
    ensures
        r is None <==> rows@.len() == 0,
        r matches Some(h) ==> exists|i: int| #[trigger] is_first_max(rows@, i) && rows@[i].hour == h,
{
    if rows.len() == 0 {
        return None;
    }
    let mut best: usize = 0;
    let mut i: usize = 1;
    while i < rows.len()
        invariant
            rows@.len() > 0,
            best < i <= rows@.len(),
            forall|j: int| 0 <= j < i ==> #[trigger] rows@[j].count <= rows@[best as int].count,
            forall|j: int| 0 <= j < best ==> #[trigger] rows@[j].count < rows@[best as int].count,
        decreases rows@.len() - i,
    {
        if rows[i].count > rows[best].count {
            best = i;
        }
        i = i + 1;
    }
    assert(is_first_max(rows@, best as int));
    Some(rows[best].hour)
}

/// A value remembered together with the time it was stored, valid for a fixed
/// number of seconds.
pub struct QueryCache<T> {
    data: Option<(T, u64)>,
    ttl_secs: u64,
}

/// What a cache holds, and when it was stored.
pub open spec fn cached_value<T>(data: Option<(T, u64)>, ttl_secs: u64, now: u64) -> Option<T> {
    match data {
        Some((v, at)) => if now >= at && now - at < ttl_secs || now < at && ttl_secs > 0 {
            Some(v)
        } else {
            None
        },
        None => None,
    }
}

impl<T: Copy> QueryCache<T> {
    /// The stored value and its time, if any.
    pub closed spec fn entry(&self) -> Option<(T, u64)> {
        self.data
    }

    /// The lifetime of a stored value, in seconds.
    pub closed spec fn ttl(&self) -> u64 {
        self.ttl_secs
    }

    /// An empty cache whose values live `ttl_secs` seconds.
    pub fn new(ttl_secs: u64) -> (r: Self)
        ensures
            r.entry() is None,
            r.ttl() == ttl_secs,
    {
        QueryCache { data: None, ttl_secs }
    }

    /// The stored value while it is younger than the lifetime at monotonic time
    /// `now` (seconds); a clock that reads earlier than the store counts as no
    /// time elapsed.
    pub fn get(&self, now: u64) -> (r: Option<T>)
        ensures
            r == cached_value(self.entry(), self.ttl(), now),
    {
        match self.data {
            Some((v, at)) => {
                let elapsed = if now >= at { now - at } else { 0 };
                if elapsed < self.ttl_secs {
                    Some(v)
                } else {
                    None
                }
            },
            None => None,
        }
    }

    /// Stores a value at monotonic time `now`.
    pub fn set(&mut self, value: T, now: u64)
        ensures
            final(self).entry() == Some((value, now)),
            final(self).ttl() == old(self).ttl(),
    {
        self.data = Some((value, now));
    }
}

/// Cache law: a value stored at time `at` is handed back unchanged by every
/// lookup before its lifetime has passed, so the store is not asked again.
pub proof fn cached_value_within_ttl<T>(value: T, at: u64, ttl_secs: u64, now: u64)
    requires
        at <= now,
        now - at < ttl_secs,
    ensures
        cached_value(Some((value, at)), ttl_secs, now) == Some(value),
{
}

} // verus!

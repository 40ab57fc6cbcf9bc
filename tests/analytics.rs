use msg_logger::limits::{MAX_QUERY_DAYS, MAX_RANK_SCAN_USERS, MAX_TOP_TALKERS_LIMIT, MAX_WORD_CLOUD_LIMIT};
use msg_logger::query::{
    calculate_user_rank, change_rate_terms, clamp_days, clamp_limit, display_name, favorite_hour,
    heatmap_grid, limit_rows, trailing_window_start, HourlyStats, QueryCache, StorageStats,
};

fn percent(current: i64, previous: i64) -> f64 {
    let (n, d) = change_rate_terms(current, previous);
    n as f64 / d as f64 * 100.0
}

#[test]
fn limits_are_clamped() {
    assert_eq!(clamp_limit(20, MAX_WORD_CLOUD_LIMIT), 20);
    assert_eq!(clamp_limit(100_000, MAX_WORD_CLOUD_LIMIT), 200);
    assert_eq!(clamp_limit(u64::MAX, MAX_TOP_TALKERS_LIMIT), 100);
    assert_eq!(clamp_days(7), 7);
    assert_eq!(clamp_days(10_000), MAX_QUERY_DAYS);
    assert_eq!(clamp_days(-3), 0);
}

#[test]
fn trailing_window_start_values() {
    assert_eq!(trailing_window_start(1_000_000, 1), 1_000_000 - 86400);
    assert_eq!(trailing_window_start(1_000_000_000, 9999), 1_000_000_000 - 365 * 86400);
    assert_eq!(trailing_window_start(i64::MIN + 5, 10), i64::MIN);
}

#[test]
fn limited_rows_never_exceed_bounds() {
    let rows: Vec<i64> = (0..500).collect();
    let out = limit_rows(rows.clone(), 1000, MAX_WORD_CLOUD_LIMIT);
    assert_eq!(out.len(), 200);
    assert_eq!(out[199], 199);
    let out = limit_rows(rows.clone(), 3, MAX_WORD_CLOUD_LIMIT);
    assert_eq!(out, vec![0, 1, 2]);
    let out = limit_rows(vec![1, 2], 50, MAX_TOP_TALKERS_LIMIT);
    assert_eq!(out, vec![1, 2]);
    assert!(limit_rows(rows, 0, MAX_TOP_TALKERS_LIMIT).is_empty());
}

#[test]
fn heatmap_fills_cells_and_zeroes_rest() {
    let grid = heatmap_grid(&vec![(0, 0, 5), (6, 23, 9), (7, 1, 4), (1, 24, 3), (-1, 2, 8), (2, 10, 1)]);
    assert_eq!(grid[0][0], 5);
    assert_eq!(grid[6][23], 9);
    assert_eq!(grid[2][10], 1);
    let total: i64 = grid.iter().flatten().sum();
    assert_eq!(total, 15);
}

#[test]
fn rank_is_senders_above_plus_one() {
    assert_eq!(calculate_user_rank(10, 0), Some(1));
    assert_eq!(calculate_user_rank(10, 3), Some(4));
    assert_eq!(calculate_user_rank(0, 3), None);
    assert_eq!(calculate_user_rank(1, 50_000), Some(MAX_RANK_SCAN_USERS + 1));
}

#[test]
fn period_comparison_rates() {
    assert_eq!(percent(50, 0), 100.0);
    assert_eq!(percent(80, 40), 100.0);
    assert_eq!(percent(0, 0), 0.0);
    assert_eq!(percent(20, 40), -50.0);
}

#[test]
fn display_name_falls_back() {
    assert_eq!(display_name(Some("u".to_string()), Some("s".to_string())), "u");
    assert_eq!(display_name(None, Some("s".to_string())), "s");
    assert_eq!(display_name(None, None), "");
}

#[test]
fn favorite_hour_takes_first_largest() {
    let rows = vec![
        HourlyStats { hour: 3, count: 2 },
        HourlyStats { hour: 9, count: 7 },
        HourlyStats { hour: 21, count: 7 },
        HourlyStats { hour: 1, count: 1 },
    ];
    assert_eq!(favorite_hour(&rows), Some(9));
    assert_eq!(favorite_hour(&vec![]), None);
}

#[test]
fn cache_returns_same_value_within_ttl() {
    let stats = StorageStats { total_messages: 10, total_keywords: 30, total_users: 4, groups_tracked: 2 };
    let mut cache: QueryCache<StorageStats> = QueryCache::new(60);
    assert_eq!(cache.get(0), None);
    cache.set(stats, 100);
    assert_eq!(cache.get(100), Some(stats));
    assert_eq!(cache.get(159), Some(stats));
    assert_eq!(cache.get(160), None);
    assert_eq!(cache.get(50), Some(stats));
}

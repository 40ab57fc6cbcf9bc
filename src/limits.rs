use vstd::prelude::*;

verus! {

/// Largest number of entries a word cloud returns.
pub const MAX_WORD_CLOUD_LIMIT: u64 = 200;

/// Largest number of entries a talker leaderboard returns.
pub const MAX_TOP_TALKERS_LIMIT: u64 = 100;

/// Largest number of messages a search returns.
pub const MAX_SEARCH_LIMIT: u64 = 500;

/// Largest number of messages a user history returns.
pub const MAX_USER_MESSAGES_LIMIT: u64 = 1000;

/// Longest trailing window, in days, that a query may cover.
pub const MAX_QUERY_DAYS: i64 = 365;

/// Most distinct senders considered when computing a rank.
pub const MAX_RANK_SCAN_USERS: i64 = 10000;

/// Time budget of a single query, in seconds.
pub const DEFAULT_QUERY_TIMEOUT_SECS: u64 = 30;

/// Capacity of the queue feeding the write batcher.
pub const WRITE_BUFFER_SIZE: usize = 1000;

/// Number of buffered units that triggers a flush.
pub const WRITE_BATCH_THRESHOLD: usize = 50;

/// Period of the flush timer, in milliseconds.
pub const WRITE_FLUSH_INTERVAL_MS: u64 = 500;

/// Seconds during which cached storage statistics stay valid.
pub const STORAGE_STATS_TTL_SECS: u64 = 60;

} // verus!

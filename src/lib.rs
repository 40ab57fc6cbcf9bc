//! Chat-message logging backend: recording policy, keyword segmentation,
//! ingestion preprocessing, write batching and analytic query support.

pub mod limits;
pub mod text;
pub mod config;
pub mod segment;
pub mod clock;
pub mod entities;
pub mod ingest;
pub mod batch;
pub mod query;

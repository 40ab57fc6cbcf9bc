//! Rows of the three stored tables.

pub mod messages;
pub mod keywords;
pub mod users;

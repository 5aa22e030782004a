//! A live view of the host's kernel activity log for a terminal dashboard:
//! it keeps the latest fetched log text, detects whether new entries arrived
//! since the previous fetch, and tracks a vertical scroll position for a
//! viewport that pages through the log.

pub mod lines;
pub mod logs;

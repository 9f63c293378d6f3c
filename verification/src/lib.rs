//! Normalises the realtime event feed of a live-broadcast room into typed
//! event records, and decides each step of the session that keeps the feed
//! alive.

pub mod data;
pub mod live;

//! Pollen forecast grid: classification of raw readings, nearest-node
//! search over rotated-grid axes, the in-memory forecast snapshot with its
//! point queries and staleness, and the refresh policy of the snapshot cache.

pub mod pollen;
pub mod locate;
pub mod snapshot;
pub mod fetch;
pub mod cache;
pub mod grid;

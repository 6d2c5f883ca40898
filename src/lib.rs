//! Host runtime for hot-reloadable LED indicator guests, with the sample
//! guests' LED logic.

pub mod animated_indicator;
pub mod battery_indicator;
pub mod scheduler;
pub mod wasm;
pub mod watcher;

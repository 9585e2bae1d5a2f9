//! Read path of a chain explorer: a staleness-bounded cache of live node
//! values, the aggregation that fills it, and the formatting rules that turn
//! stored chain records into display values.

pub mod codec;
pub mod timefmt;
pub mod snapshot;
pub mod cache;
pub mod db_entities;
pub mod views;
pub mod search;

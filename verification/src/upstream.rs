//! The upstream tile servers.

pub mod osm;

pub use osm::{FetchResult, OsmFetcher};

//! A caching reverse proxy for raster map tiles: the verified core.
//!
//! A tile is named by `(z, x, y)`. A request is answered from the memory tier,
//! else from the disk tier, else from upstream, with at most one upstream
//! fetch in flight for a key at a time. This crate holds the rules of that
//! pipeline and the data they work on; the process around it performs the
//! I/O that the rules ask for.

pub mod cache;
pub mod config;
pub mod error;
pub mod handlers;
pub mod text;
pub mod types;
pub mod upstream;

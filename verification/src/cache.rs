//! The two cache tiers and the registry of fetches in flight.

pub mod coalescing;
pub mod disk;
pub mod files;
pub mod memory;

pub use coalescing::RequestCoalescer;
pub use disk::DiskCache;
pub use memory::MemoryCache;

//! Serving one tile request, and many at once.

pub mod flights;
pub mod tile;

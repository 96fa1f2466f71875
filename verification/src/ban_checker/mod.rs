//! Ban lookups in the ban store.

pub mod redis;

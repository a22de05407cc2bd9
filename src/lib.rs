//! Correlates grid carbon intensity with COVID case counts by region and day.
//!
//! The library validates a region-and-date query, resolves the region in the
//! vocabularies of both upstream services, plans one fetch pair per day,
//! shapes the upstream request paths, and assembles the per-day results. The
//! HTTP work itself stays outside the library.
pub mod date;
pub mod engine;
pub mod region;
pub mod request;

//! Workload engine for a wide-column store: key sampling, pacing, metrics
//! aggregation and the dashboard's state machine.

pub mod app;
pub mod cache;
pub mod clock;
pub mod connection;
pub mod devices;
pub mod entropy;
pub mod events;
pub mod metrics;
pub mod migration;
pub mod models;
pub mod pacing;
pub mod pattern;
pub mod payload;
pub mod render;
pub mod sampler;
pub mod scrape;
pub mod series;
pub mod tabs;
pub mod tasks;
pub mod text;
pub mod timeseries;
pub mod users;

//! Sizing buckets from the storage metrics that CloudWatch keeps.

pub mod bucket_metrics;
pub mod bucket_sizer;
pub mod catalog;
pub mod client;
pub mod statistics;

pub use client::Client;

//! Sizing buckets by listing what they hold.

pub mod bucket_list;
pub mod bucket_sizer;
pub mod client;
pub mod completeness;
pub mod listing;
pub mod multipart;
pub mod reachable;

pub use client::Client;

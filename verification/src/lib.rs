//! `s3du` reports how much space object-storage buckets use, from the daily
//! storage metrics of CloudWatch or by listing what a bucket holds.
//!
//! The crate holds the decisions and the arithmetic only. It performs no
//! request itself: a caller sends what a walk asks for and hands the response
//! back, so every rule on cursors, filters and totals is stated and proved here.

pub mod backend;
pub mod cli;
pub mod cloudwatch;
pub mod common;
pub mod s3;

//! Types and rules that both backends share.

pub mod bucket;
pub mod client_config;
pub mod client_mode;
pub mod error;
pub mod human_size;
pub mod object_versions;
pub mod pager;
pub mod region;
pub mod s3_object_versions;
pub mod size_unit;
pub mod tally;
pub mod text;

pub use bucket::{Bucket, BucketNames, Buckets, StorageTypes};
pub use client_config::{ClientConfig, ConfigError};
pub use client_mode::ClientMode;
pub use error::Error;
pub use human_size::HumanSize;
pub use object_versions::ObjectVersions;
pub use region::Region;
pub use s3_object_versions::S3ObjectVersions;
pub use size_unit::SizeUnit;

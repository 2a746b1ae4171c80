//! A bucket, as discovery finds it and sizing takes it.
use crate::common::region::{Region, RegionModel};
use vstd::prelude::*;

verus! {

/// The names of buckets.
pub type BucketNames = Vec<String>;

/// The storage classes that a bucket holds data in.
pub type StorageTypes = Vec<String>;

/// A bucket. Its name identifies it; discovery fills in what its backend
/// knows besides, and nothing changes a bucket after that.
#[derive(Debug, Clone)]
pub struct Bucket {
    /// The bucket's name.
    pub name: String,
    /// The region that the bucket lives in, where it was asked for.
    pub region: Option<Region>,
    /// The storage classes that metrics exist for, where they were looked up.
    pub storage_types: Option<StorageTypes>,
}

/// The buckets that discovery found.
pub type Buckets = Vec<Bucket>;

/// The model of a [`Bucket`].
pub struct BucketModel {
    pub name: Seq<char>,
    pub region: Option<RegionModel>,
    pub storage_types: Option<Seq<Seq<char>>>,
}

impl DeepView for Bucket {
    type V = BucketModel;

    open spec fn deep_view(&self) -> BucketModel {
        BucketModel {
            name: self.name@,
            region: self.region.deep_view(),
            storage_types: self.storage_types.deep_view(),
        }
    }
}

} // verus!

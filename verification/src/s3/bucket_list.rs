//! The names of the buckets that S3 lists.
use crate::common::text::chars_of;
use vstd::prelude::*;

verus! {

/// A bucket as the listing of buckets gives it.
#[derive(Debug, Clone, PartialEq, Eq)]
pub struct ListedBucket {
    /// The bucket's name, where the service gave one.
    pub name: Option<String>,
}

/// The answer to a request for the buckets of an account.
#[derive(Debug, Clone, PartialEq, Eq)]
pub struct ListBucketsOutput {
    /// The buckets, where the service gave any.
    pub buckets: Option<Vec<ListedBucket>>,
}

/// The names of the buckets that were listed.
#[derive(Debug, Clone, PartialEq, Eq)]
pub struct BucketList(pub Vec<String>);

/// The name of each of `buckets` that has one, in order.
pub open spec fn listed_names(buckets: Seq<ListedBucket>) -> Seq<Seq<char>> {
    buckets.filter_map(|bucket: ListedBucket| chars_of(bucket.name))
}

/// The names that `output` lists.
pub open spec fn names_of(output: ListBucketsOutput) -> Seq<Seq<char>> {
    match output.buckets {
        Some(buckets) => listed_names(buckets@),
        None => Seq::empty(),
    }
}

impl BucketList {
    /// The names of the buckets in `output`: those that have one, in the
    /// order they were listed.
    pub fn from(output: ListBucketsOutput) -> (list: BucketList)
        ensures
            list.0.deep_view() == names_of(output),
    {
        let mut names: Vec<String> = Vec::new();
        match output.buckets {
            None => {
                proof {
                    assert(names.deep_view() =~= names_of(output));
                }
            },
            Some(buckets) => {
                let mut at: usize = 0;
                proof {
                    assert(buckets@.take(0) =~= Seq::<ListedBucket>::empty());
                    assert(names.deep_view() =~= listed_names(buckets@.take(0)));
                }
                while at < buckets.len()
                    invariant
                        at <= buckets.len(),
                        names.deep_view() == listed_names(buckets@.take(at as int)),
                    decreases buckets.len() - at,
                {
                    let ghost before = names.deep_view();
                    proof {
                        assert(buckets@.take(at + 1).drop_last() =~= buckets@.take(at as int));
                        assert(buckets@.take(at + 1).last() == buckets@[at as int]);
                    }
                    match &buckets[at].name {
                        Some(name) => {
                            names.push(name.clone());
                            proof {
                                assert(names.deep_view() =~= before + seq![name@]);
                            }
                        },
                        None => {},
                    }
                    at = at + 1;
                }
                proof {
                    assert(buckets@.take(at as int) =~= buckets@);
                }
            },
        }
        BucketList(names)
    }

    /// The names of the buckets.
    pub fn bucket_names(&self) -> (names: &Vec<String>)
        ensures
            *names == self.0,
    {
        &self.0
    }
}

} // verus!

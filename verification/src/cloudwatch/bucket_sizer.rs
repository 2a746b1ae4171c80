//! Buckets and their sizes, from what CloudWatch answered.
use crate::cloudwatch::bucket_metrics::{mentioned, recorded, BucketMetrics, Metric};
use crate::cloudwatch::client::{classes_of, Client};
use crate::cloudwatch::statistics::{class_bytes, latest, Statistics};
use crate::common::bucket::{Bucket, Buckets};
use crate::common::error::Error;
use crate::common::text::copies_of;
use crate::common::tally::{lemma_total_grows, lemma_total_push, total};
use vstd::prelude::*;

verus! {

/// What each storage class adds to a bucket's size.
pub open spec fn class_amounts(statistics: Seq<Statistics>) -> Seq<int> {
    statistics.map_values(|class: Statistics| class_bytes(class.datapoints@))
}

/// Whether no storage class has a sample.
pub open spec fn no_samples(statistics: Seq<Statistics>) -> bool {
    forall|i: int| 0 <= i < statistics.len() ==> (#[trigger] statistics[i]).datapoints@.len() == 0
}

/// The size of a bucket whose storage classes answered with `statistics`:
/// the sum over the classes of the latest sample's average. Without a sample
/// in any class there is no size, and a sum that the total cannot hold is none
/// either.
pub open spec fn bucket_bytes(statistics: Seq<Statistics>) -> Result<u64, Error> {
    if no_samples(statistics) {
        Err(Error::NoUsableData)
    } else if total(class_amounts(statistics)) > u64::MAX {
        Err(Error::SizeOverflow)
    } else {
        Ok(total(class_amounts(statistics)) as u64)
    }
}

/// Whether one of `buckets` has the name `bucket`.
pub open spec fn lists(buckets: Seq<Bucket>, bucket: Seq<char>) -> bool {
    exists|i: int| 0 <= i < buckets.len() && (#[trigger] buckets[i]).name@ == bucket
}

impl Client {
    /// The buckets that `metrics`, the whole metric catalog, speak of: each
    /// bucket once, with the storage classes that the catalog has for it,
    /// each of them once, and without a region.
    pub fn buckets(&self, metrics: Vec<Metric>) -> (buckets: Buckets)
        ensures
            forall|bucket: Seq<char>| lists(buckets@, bucket) <==> mentioned(metrics@, bucket),
            forall|i: int, j: int|
                0 <= i < j < buckets@.len() ==> (#[trigger] buckets@[i]).name@ != (
                #[trigger] buckets@[j]).name@,
            forall|i: int|
                0 <= i < buckets@.len() ==> {
                    &&& (#[trigger] buckets@[i]).region is None
                    &&& buckets@[i].storage_types is Some
                    &&& classes_of(buckets@[i]).no_duplicates()
                },
            forall|i: int, class: Seq<char>|
                0 <= i < buckets@.len() ==> (#[trigger] classes_of(buckets@[i]).contains(class)
                    <==> recorded(metrics@, buckets@[i].name@, class)),
    {
        let ghost catalog = metrics@;
        let found = BucketMetrics::from(metrics);
        let names = found.bucket_names();
        let mut buckets: Buckets = Vec::new();
        let mut at: usize = 0;
        while at < names.len()
            invariant
                at <= names.len(),
                found.wf(),
                forall|bucket: Seq<char>| found.knows(bucket) <==> mentioned(catalog, bucket),
                forall|bucket: Seq<char>, class: Seq<char>|
                    found.holds(bucket, class) <==> recorded(catalog, bucket, class),
                names.deep_view() == found.names(),
                names.deep_view().no_duplicates(),
                forall|bucket: Seq<char>| names.deep_view().contains(bucket) <==> found.knows(bucket),
                buckets@.len() == at,
                forall|i: int|
                    0 <= i < at ==> {
                        &&& (#[trigger] buckets@[i]).name@ == names.deep_view()[i]
                        &&& buckets@[i].region is None
                        &&& buckets@[i].storage_types is Some
                        &&& classes_of(buckets@[i]).no_duplicates()
                        &&& classes_of(buckets@[i]).to_set() == found.classes(buckets@[i].name@)
                    },
            decreases names.len() - at,
        {
            let name = names[at].clone();
            proof {
                assert(names.deep_view()[at as int] == name@);
                assert(names.deep_view().contains(name@));
            }
            let classes = copies_of(found.storage_types(name.as_str()));
            let ghost before = buckets@;
            buckets.push(Bucket { name, region: None, storage_types: Some(classes) });
            proof {
                assert(forall|i: int| 0 <= i < at ==> buckets@[i] == before[i]);
            }
            at = at + 1;
        }
        proof {
            let shown = names.deep_view();
            assert forall|bucket: Seq<char>| lists(buckets@, bucket) <==> mentioned(
                catalog,
                bucket,
            ) by {
                if lists(buckets@, bucket) {
                    let i = choose|i: int|
                        0 <= i < buckets@.len() && (#[trigger] buckets@[i]).name@ == bucket;
                    assert(shown[i] == bucket);
                    assert(shown.contains(bucket));
                }
                if mentioned(catalog, bucket) {
                    assert(shown.contains(bucket));
                    let i = choose|i: int| 0 <= i < shown.len() && shown[i] == bucket;
                    assert(buckets@[i].name@ == bucket);
                }
            }
            assert forall|i: int, j: int| 0 <= i < j < buckets@.len() implies (
            #[trigger] buckets@[i]).name@ != (#[trigger] buckets@[j]).name@ by {
                assert(shown[i] != shown[j]);
            }
            assert forall|i: int, class: Seq<char>| 0 <= i < buckets@.len() implies (
            #[trigger] classes_of(buckets@[i]).contains(class) <==> recorded(
                catalog,
                buckets@[i].name@,
                class,
            )) by {
                assert(classes_of(buckets@[i]).to_set().contains(class) <==> classes_of(
                    buckets@[i],
                ).contains(class));
                assert(found.classes(buckets@[i].name@).contains(class) <==> found.holds(
                    buckets@[i].name@,
                    class,
                ));
            }
        }
        buckets
    }

    /// The size of a bucket in bytes. `statistics` holds the answer to the
    /// query for each of the bucket's storage classes.
    pub fn bucket_size(&self, statistics: &Vec<Statistics>) -> (size: Result<u64, Error>)
        ensures
            size == bucket_bytes(statistics@),
    {
        let ghost amounts = class_amounts(statistics@);
        let mut size: u64 = 0;
        let mut sampled: bool = false;
        let mut at: usize = 0;
        while at < statistics.len()
            invariant
                at <= statistics.len(),
                amounts == class_amounts(statistics@),
                size == total(amounts.take(at as int)),
                sampled <==> !no_samples(statistics@.take(at as int)),
                forall|i: int| 0 <= i < amounts.len() ==> amounts[i] >= 0,
            decreases statistics.len() - at,
        {
            let datapoints = &statistics[at].datapoints;
            let bytes: u64 = match latest(datapoints) {
                Some(found) => datapoints[found].average,
                None => 0,
            };
            proof {
                let before = statistics@.take(at as int);
                let after = statistics@.take(at + 1);
                assert(after =~= before.push(statistics@[at as int]));
                assert(forall|i: int| 0 <= i < before.len() ==> before[i] == after[i]);
                assert(after[at as int] == statistics@[at as int]);
                lemma_total_push(amounts.take(at as int), amounts[at as int]);
                assert(amounts.take(at + 1) =~= amounts.take(at as int).push(amounts[at as int]));
                lemma_total_grows(amounts, at + 1);
                if datapoints.len() > 0 {
                    assert(!no_samples(statistics@));
                }
            }
            if datapoints.len() > 0 {
                sampled = true;
            }
            match size.checked_add(bytes) {
                Some(sum) => {
                    size = sum;
                },
                None => {
                    return Err(Error::SizeOverflow);
                },
            }
            at = at + 1;
        }
        proof {
            assert(statistics@.take(at as int) =~= statistics@);
            assert(amounts.take(at as int) =~= amounts);
        }
        if sampled {
            Ok(size)
        } else {
            Err(Error::NoUsableData)
        }
    }
}

} // verus!

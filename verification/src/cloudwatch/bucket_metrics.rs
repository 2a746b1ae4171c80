//! Which buckets have storage metrics, and in which storage classes.
use crate::common::bucket::StorageTypes;
use crate::common::text::{among, chars_of, holds_text};
use vstd::prelude::*;

verus! {

/// One name and value that a metric is filed under.
#[derive(Debug, Clone, PartialEq, Eq)]
pub struct Dimension {
    /// The dimension's name, such as `BucketName`.
    pub name: Option<String>,
    /// The dimension's value.
    pub value: Option<String>,
}

/// A metric of the catalog: here, the dimensions it is filed under.
#[derive(Debug, Clone, PartialEq, Eq)]
pub struct Metric {
    /// The metric's dimensions, in the order the service gave them.
    pub dimensions: Vec<Dimension>,
}

/// A bucket and the storage classes that metrics exist for.
#[derive(Debug, Clone, PartialEq, Eq)]
pub struct BucketEntry {
    /// The bucket's name.
    pub name: String,
    /// The bucket's storage classes, each once.
    pub storage_types: StorageTypes,
}

/// The buckets that the metric catalog knows, each with its storage classes.
#[derive(Debug, Clone, PartialEq, Eq)]
pub struct BucketMetrics(pub Vec<BucketEntry>);

/// The value that `dimensions` give for `name`: that of the last dimension
/// which has this name and a value.
pub open spec fn dimension_value(dimensions: Seq<Dimension>, name: Seq<char>) -> Option<Seq<char>>
    decreases dimensions.len(),
{
    if dimensions.len() == 0 {
        None
    } else if chars_of(dimensions.last().name) == Some(name) && dimensions.last().value is Some {
        chars_of(dimensions.last().value)
    } else {
        dimension_value(dimensions.drop_last(), name)
    }
}

/// The bucket and the storage class that `metric` speaks of. A metric that
/// lacks either dimension speaks of none.
pub open spec fn labels(metric: Metric) -> Option<(Seq<char>, Seq<char>)> {
    match (
        dimension_value(metric.dimensions@, "BucketName"@),
        dimension_value(metric.dimensions@, "StorageType"@),
    ) {
        (Some(bucket), Some(class)) => Some((bucket, class)),
        _ => None,
    }
}

/// Whether one of `metrics` speaks of `bucket` in storage class `class`.
pub open spec fn recorded(metrics: Seq<Metric>, bucket: Seq<char>, class: Seq<char>) -> bool {
    exists|i: int| 0 <= i < metrics.len() && labels(#[trigger] metrics[i]) == Some((bucket, class))
}

/// The bucket that `metric` speaks of.
pub open spec fn bucket_of(metric: Metric) -> Option<Seq<char>> {
    match labels(metric) {
        Some(spoken) => Some(spoken.0),
        None => None,
    }
}

/// Whether one of `metrics` speaks of `bucket`.
pub open spec fn mentioned(metrics: Seq<Metric>, bucket: Seq<char>) -> bool {
    exists|i: int| 0 <= i < metrics.len() && bucket_of(#[trigger] metrics[i]) == Some(bucket)
}

impl BucketMetrics {
    /// Whether an entry is filed under `bucket` and holds `class`.
    pub open spec fn holds(&self, bucket: Seq<char>, class: Seq<char>) -> bool {
        exists|i: int|
            0 <= i < self.0@.len() && (#[trigger] self.0@[i]).name@ == bucket
                && self.0@[i].storage_types.deep_view().contains(class)
    }

    /// Whether an entry is filed under `bucket`.
    pub open spec fn knows(&self, bucket: Seq<char>) -> bool {
        exists|i: int| 0 <= i < self.0@.len() && (#[trigger] self.0@[i]).name@ == bucket
    }

    /// The storage classes filed under `bucket`.
    pub open spec fn classes(&self, bucket: Seq<char>) -> Set<Seq<char>> {
        Set::new(|class: Seq<char>| self.holds(bucket, class))
    }

    /// Every bucket has one entry, and every entry names each of its storage
    /// classes once and at least one.
    pub open spec fn wf(&self) -> bool {
        &&& forall|i: int, j: int|
            0 <= i < j < self.0@.len() ==> (#[trigger] self.0@[i]).name@ != (
            #[trigger] self.0@[j]).name@
        &&& forall|i: int|
            0 <= i < self.0@.len() ==> (#[trigger] self.0@[i]).storage_types.deep_view().len() > 0
        &&& forall|i: int|
            0 <= i < self.0@.len() ==> (#[trigger] self.0@[i]).storage_types.deep_view().no_duplicates()
    }

    /// The bucket names, as characters, in the order of the entries.
    pub open spec fn names(&self) -> Seq<Seq<char>> {
        Seq::new(self.0@.len(), |i: int| self.0@[i].name@)
    }

    /// Where `bucket` has its entry.
    fn find(&self, bucket: &String) -> (found: Option<usize>)
        ensures
            match found {
                Some(at) => at < self.0@.len() && self.0@[at as int].name@ == bucket@,
                None => !self.knows(bucket@),
            },
    {
        let mut at: usize = 0;
        while at < self.0.len()
            invariant
                at <= self.0@.len(),
                forall|i: int| 0 <= i < at ==> (#[trigger] self.0@[i]).name@ != bucket@,
            decreases self.0@.len() - at,
        {
            if self.0[at].name == *bucket {
                return Some(at);
            }
            at = at + 1;
        }
        None
    }

    /// Files storage class `class` under `bucket`, unless it is there.
    fn record(&mut self, bucket: String, class: String)
        requires
            old(self).wf(),
        ensures
            final(self).wf(),
            forall|b: Seq<char>, c: Seq<char>|
                final(self).holds(b, c) <==> old(self).holds(b, c) || (b == bucket@ && c == class@),
            forall|b: Seq<char>| final(self).knows(b) <==> old(self).knows(b) || b == bucket@,
    {
        let ghost before = *self;
        match self.find(&bucket) {
            Some(at) => {
                if !among(&self.0[at].storage_types, class.as_str()) {
                    let ghost labels = self.0@[at as int].storage_types.deep_view();
                    self.0[at].storage_types.push(class);
                    proof {
                        let after = *self;
                        assert(after.0@[at as int].storage_types.deep_view() =~= labels.push(
                            class@,
                        ));
                        assert forall|b: Seq<char>, c: Seq<char>|
                            after.holds(b, c) <==> before.holds(b, c) || (b == bucket@ && c
                                == class@) by {
                            if after.holds(b, c) {
                                let i = choose|i: int|
                                    0 <= i < after.0@.len() && (#[trigger] after.0@[i]).name@ == b
                                        && after.0@[i].storage_types.deep_view().contains(c);
                                if i == at {
                                    let k = choose|k: int|
                                        0 <= k < labels.push(class@).len() && labels.push(
                                            class@,
                                        )[k] == c;
                                    if k < labels.len() {
                                        assert(labels[k] == c);
                                        assert(before.0@[at as int].storage_types.deep_view().contains(
                                            c,
                                        ));
                                    }
                                } else {
                                    assert(before.0@[i] == after.0@[i]);
                                }
                            }
                            if before.holds(b, c) {
                                let i = choose|i: int|
                                    0 <= i < before.0@.len() && (#[trigger] before.0@[i]).name@
                                        == b && before.0@[i].storage_types.deep_view().contains(c);
                                if i == at {
                                    let k = choose|k: int| 0 <= k < labels.len() && labels[k] == c;
                                    assert(labels.push(class@)[k] == c);
                                    assert(after.0@[at as int].name@ == b);
                                } else {
                                    assert(before.0@[i] == after.0@[i]);
                                }
                            }
                            if b == bucket@ && c == class@ {
                                assert(labels.push(class@)[labels.len() as int] == c);
                                assert(after.0@[at as int].name@ == b);
                            }
                        }
                        assert forall|b: Seq<char>| after.knows(b) <==> before.knows(b) || b
                            == bucket@ by {
                            if after.knows(b) {
                                let i = choose|i: int|
                                    0 <= i < after.0@.len() && (#[trigger] after.0@[i]).name@ == b;
                                assert(before.0@[i].name@ == b);
                            }
                            if before.knows(b) {
                                let i = choose|i: int|
                                    0 <= i < before.0@.len() && (#[trigger] before.0@[i]).name@
                                        == b;
                                assert(after.0@[i].name@ == b);
                            }
                            if b == bucket@ {
                                assert(after.0@[at as int].name@ == b);
                            }
                        }
                        assert forall|i: int, j: int| 0 <= i < j < after.0@.len() implies (
                        #[trigger] after.0@[i]).name@ != (#[trigger] after.0@[j]).name@ by {
                            assert(before.0@[i].name@ == after.0@[i].name@);
                            assert(before.0@[j].name@ == after.0@[j].name@);
                        }
                        assert forall|i: int| 0 <= i < after.0@.len() implies (
                        #[trigger] after.0@[i]).storage_types.deep_view().no_duplicates() by {
                            if i != at {
                                assert(before.0@[i] == after.0@[i]);
                            }
                        }
                        assert forall|i: int| 0 <= i < after.0@.len() implies (
                        #[trigger] after.0@[i]).storage_types.deep_view().len() > 0 by {
                            if i != at {
                                assert(before.0@[i] == after.0@[i]);
                            }
                        }
                    }
                } else {
                    proof {
                        assert(before.holds(bucket@, class@));
                    }
                }
            },
            None => {
                let mut storage_types: StorageTypes = Vec::new();
                storage_types.push(class);
                let entry = BucketEntry { name: bucket, storage_types };
                proof {
                    assert(entry.storage_types.deep_view() =~= seq![class@]);
                }
                self.0.push(entry);
                proof {
                    let after = *self;
                    let last = before.0@.len() as int;
                    assert(after.0@[last] == entry);
                    assert forall|b: Seq<char>, c: Seq<char>|
                        after.holds(b, c) <==> before.holds(b, c) || (b == bucket@ && c
                            == class@) by {
                        if after.holds(b, c) {
                            let i = choose|i: int|
                                0 <= i < after.0@.len() && (#[trigger] after.0@[i]).name@ == b
                                    && after.0@[i].storage_types.deep_view().contains(c);
                            if i < last {
                                assert(before.0@[i] == after.0@[i]);
                            }
                        }
                        if before.holds(b, c) {
                            let i = choose|i: int|
                                0 <= i < before.0@.len() && (#[trigger] before.0@[i]).name@ == b
                                    && before.0@[i].storage_types.deep_view().contains(c);
                            assert(before.0@[i] == after.0@[i]);
                        }
                        if b == bucket@ && c == class@ {
                            assert(seq![class@][0] == c);
                            assert(after.0@[last].name@ == b);
                        }
                    }
                    assert forall|b: Seq<char>| after.knows(b) <==> before.knows(b) || b
                        == bucket@ by {
                        if after.knows(b) {
                            let i = choose|i: int|
                                0 <= i < after.0@.len() && (#[trigger] after.0@[i]).name@ == b;
                            if i < last {
                                assert(before.0@[i] == after.0@[i]);
                            }
                        }
                        if before.knows(b) {
                            let i = choose|i: int|
                                0 <= i < before.0@.len() && (#[trigger] before.0@[i]).name@ == b;
                            assert(before.0@[i] == after.0@[i]);
                        }
                        if b == bucket@ {
                            assert(after.0@[last].name@ == b);
                        }
                    }
                    assert forall|i: int, j: int| 0 <= i < j < after.0@.len() implies (
                    #[trigger] after.0@[i]).name@ != (#[trigger] after.0@[j]).name@ by {
                        assert(before.0@[i] == after.0@[i]);
                        if j < last {
                            assert(before.0@[j] == after.0@[j]);
                        }
                    }
                    assert forall|i: int| 0 <= i < after.0@.len() implies (
                    #[trigger] after.0@[i]).storage_types.deep_view().no_duplicates() by {
                        if i < last {
                            assert(before.0@[i] == after.0@[i]);
                        }
                    }
                    assert forall|i: int| 0 <= i < after.0@.len() implies (
                    #[trigger] after.0@[i]).storage_types.deep_view().len() > 0 by {
                        if i < last {
                            assert(before.0@[i] == after.0@[i]);
                        }
                    }
                }
            },
        }
    }

    /// The buckets and storage classes that `metrics` speak of. A metric that
    /// lacks the bucket's name or the storage class is passed over.
    pub fn from(metrics: Vec<Metric>) -> (found: BucketMetrics)
        ensures
            found.wf(),
            forall|bucket: Seq<char>, class: Seq<char>|
                found.holds(bucket, class) <==> recorded(metrics@, bucket, class),
            forall|bucket: Seq<char>| found.knows(bucket) <==> mentioned(metrics@, bucket),
    {
        let mut found = BucketMetrics(Vec::new());
        let mut at: usize = 0;
        while at < metrics.len()
            invariant
                at <= metrics.len(),
                found.wf(),
                forall|bucket: Seq<char>, class: Seq<char>|
                    found.holds(bucket, class) <==> recorded(
                        metrics@.take(at as int),
                        bucket,
                        class,
                    ),
                forall|bucket: Seq<char>|
                    found.knows(bucket) <==> mentioned(metrics@.take(at as int), bucket),
            decreases metrics.len() - at,
        {
            let ghost before = found;
            let ghost seen = metrics@.take(at as int);
            let ghost more = metrics@.take(at + 1);
            let spoken = metric_labels(&metrics[at]);
            proof {
                assert(more =~= seen.push(metrics@[at as int]));
                assert(forall|i: int| 0 <= i < seen.len() ==> seen[i] == more[i]);
                assert(more[at as int] == metrics@[at as int]);
            }
            match spoken {
                Some((bucket, class)) => {
                    found.record(bucket, class);
                },
                None => {},
            }
            proof {
                assert forall|b: Seq<char>, c: Seq<char>|
                    found.holds(b, c) <==> recorded(more, b, c) by {
                    if recorded(more, b, c) {
                        let i = choose|i: int|
                            0 <= i < more.len() && labels(#[trigger] more[i]) == Some((b, c));
                        if i < at {
                            assert(labels(seen[i]) == Some((b, c)));
                            assert(recorded(seen, b, c));
                        }
                    }
                    if recorded(seen, b, c) {
                        let i = choose|i: int|
                            0 <= i < seen.len() && labels(#[trigger] seen[i]) == Some((b, c));
                        assert(labels(more[i]) == Some((b, c)));
                    }
                    if labels(metrics@[at as int]) == Some((b, c)) {
                        assert(labels(more[at as int]) == Some((b, c)));
                    }
                }
                assert forall|b: Seq<char>| found.knows(b) <==> mentioned(more, b) by {
                    if mentioned(more, b) {
                        let i = choose|i: int|
                            0 <= i < more.len() && bucket_of(#[trigger] more[i]) == Some(b);
                        if i < at {
                            assert(bucket_of(seen[i]) == Some(b));
                            assert(mentioned(seen, b));
                        }
                    }
                    if mentioned(seen, b) {
                        let i = choose|i: int|
                            0 <= i < seen.len() && bucket_of(#[trigger] seen[i]) == Some(b);
                        assert(bucket_of(more[i]) == Some(b));
                    }
                    if bucket_of(metrics@[at as int]) == Some(b) {
                        assert(bucket_of(more[at as int]) == Some(b));
                    }
                }
            }
            at = at + 1;
        }
        proof {
            assert(metrics@.take(at as int) =~= metrics@);
        }
        found
    }

    /// The names of the buckets, each once.
    pub fn bucket_names(&self) -> (names: Vec<String>)
        ensures
            names.deep_view() == self.names(),
            forall|bucket: Seq<char>| names.deep_view().contains(bucket) <==> self.knows(bucket),
            self.wf() ==> names.deep_view().no_duplicates(),
    {
        let mut names: Vec<String> = Vec::new();
        let mut at: usize = 0;
        while at < self.0.len()
            invariant
                at <= self.0@.len(),
                names.deep_view() =~= self.names().take(at as int),
            decreases self.0@.len() - at,
        {
            let ghost before = names.deep_view();
            names.push(self.0[at].name.clone());
            proof {
                assert(names.deep_view() =~= before.push(self.0@[at as int].name@));
            }
            at = at + 1;
        }
        proof {
            let shown = names.deep_view();
            assert(self.names().take(at as int) =~= self.names());
            assert forall|bucket: Seq<char>| shown.contains(bucket) <==> self.knows(bucket) by {
                if shown.contains(bucket) {
                    let i = choose|i: int| 0 <= i < shown.len() && shown[i] == bucket;
                    assert(self.0@[i].name@ == bucket);
                }
                if self.knows(bucket) {
                    let i = choose|i: int|
                        0 <= i < self.0@.len() && (#[trigger] self.0@[i]).name@ == bucket;
                    assert(shown[i] == bucket);
                }
            }
            if self.wf() {
                assert forall|i: int, j: int|
                    0 <= i < shown.len() && 0 <= j < shown.len() && i != j implies shown[i]
                    != shown[j] by {
                    if i < j {
                        assert(self.0@[i].name@ != self.0@[j].name@);
                    } else {
                        assert(self.0@[j].name@ != self.0@[i].name@);
                    }
                }
            }
        }
        names
    }

    /// Whether metrics exist for `bucket`.
    pub fn contains(&self, bucket: &str) -> (known: bool)
        ensures
            known == self.knows(bucket@),
    {
        let name = bucket.to_owned();
        self.find(&name).is_some()
    }

    /// The storage classes of `bucket`, which must be one of
    /// [`bucket_names`](BucketMetrics::bucket_names).
    pub fn storage_types(&self, bucket: &str) -> (classes: &StorageTypes)
        requires
            self.wf(),
            self.knows(bucket@),
        ensures
            classes.deep_view().to_set() == self.classes(bucket@),
            classes.deep_view().no_duplicates(),
            classes.deep_view().len() > 0,
    {
        let name = bucket.to_owned();
        let found = self.find(&name);
        let at = found.unwrap();
        proof {
            let labels = self.0@[at as int].storage_types.deep_view();
            assert forall|class: Seq<char>|
                labels.to_set().contains(class) <==> self.classes(bucket@).contains(class) by {
                if self.holds(bucket@, class) {
                    let i = choose|i: int|
                        0 <= i < self.0@.len() && (#[trigger] self.0@[i]).name@ == bucket@
                            && self.0@[i].storage_types.deep_view().contains(class);
                    if i < at {
                        assert(self.0@[i].name@ != self.0@[at as int].name@);
                    } else if at < i {
                        assert(self.0@[at as int].name@ != self.0@[i].name@);
                    }
                }
            }
            assert(labels.to_set() =~= self.classes(bucket@));
        }
        &self.0[at].storage_types
    }
}

/// What the last dimension of `dimensions` that is named `name` and has a
/// value says.
fn find_dimension(dimensions: &Vec<Dimension>, name: &str) -> (value: Option<String>)
    ensures
        chars_of(value) == dimension_value(dimensions@, name@),
{
    let mut at: usize = dimensions.len();
    proof {
        assert(dimensions@.take(at as int) =~= dimensions@);
    }
    while at > 0
        invariant
            at <= dimensions.len(),
            dimension_value(dimensions@, name@) == dimension_value(
                dimensions@.take(at as int),
                name@,
            ),
        decreases at,
    {
        at = at - 1;
        proof {
            assert(dimensions@.take(at + 1).drop_last() =~= dimensions@.take(at as int));
            assert(dimensions@.take(at + 1).last() == dimensions@[at as int]);
        }
        match (&dimensions[at].name, &dimensions[at].value) {
            (Some(found), Some(value)) => {
                if holds_text(found, name) {
                    return Some(value.clone());
                }
            },
            _ => {},
        }
    }
    proof {
        assert(dimensions@.take(0).len() == 0);
    }
    None
}

/// The bucket and the storage class that `metric` speaks of.
pub fn metric_labels(metric: &Metric) -> (spoken: Option<(String, String)>)
    ensures
        match spoken {
            Some((bucket, class)) => labels(*metric) == Some((bucket@, class@)),
            None => labels(*metric) is None,
        },
{
    let bucket = find_dimension(&metric.dimensions, "BucketName");
    let class = find_dimension(&metric.dimensions, "StorageType");
    match (bucket, class) {
        (Some(bucket), Some(class)) => Some((bucket, class)),
        _ => None,
    }
}

} // verus!

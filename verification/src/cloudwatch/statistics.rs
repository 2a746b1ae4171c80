//! The data points that a statistics query returns, and which of them counts.
use vstd::prelude::*;

verus! {

/// A moment, as the metrics service gives it.
#[derive(Debug, Clone, Copy, PartialEq, Eq)]
pub struct Timestamp {
    /// Whole seconds since the Unix epoch.
    pub seconds: i64,
    /// Nanoseconds on top of the seconds.
    pub subsecond_nanos: u32,
}

/// One sample of a bucket's size in one storage class.
#[derive(Debug, Clone, Copy, PartialEq, Eq)]
pub struct Datapoint {
    /// When the sample was taken, where the service says so.
    pub timestamp: Option<Timestamp>,
    /// The average number of bytes over the sample's period, rounded.
    pub average: u64,
}

/// The answer to one statistics query: the samples of one storage class.
#[derive(Debug, Clone, PartialEq, Eq)]
pub struct Statistics {
    /// The samples, in the order the service gave them.
    pub datapoints: Vec<Datapoint>,
}

/// Where a sample stands in time, in nanoseconds. A sample without a
/// timestamp stands before every sample that has one.
pub open spec fn instant(datapoint: Datapoint) -> int {
    match datapoint.timestamp {
        Some(timestamp) => timestamp.seconds * 1_000_000_000 + timestamp.subsecond_nanos,
        None => i64::MIN * 1_000_000_000 - 1,
    }
}

/// Whether the sample at `at` is the one that counts: none is later, and of
/// those taken at the same instant it comes first.
pub open spec fn is_latest(datapoints: Seq<Datapoint>, at: int) -> bool {
    &&& 0 <= at < datapoints.len()
    &&& forall|i: int| 0 <= i < datapoints.len() ==> instant(datapoints[i]) <= instant(datapoints[at])
    &&& forall|i: int| 0 <= i < at ==> instant(datapoints[i]) < instant(datapoints[at])
}

/// The place of the sample that counts.
pub open spec fn latest_index(datapoints: Seq<Datapoint>) -> int {
    choose|at: int| is_latest(datapoints, at)
}

/// The bytes that one storage class adds to a bucket's size: the average of
/// its latest sample, or nothing where it has no sample.
pub open spec fn class_bytes(datapoints: Seq<Datapoint>) -> int {
    if datapoints.len() == 0 {
        0
    } else {
        datapoints[latest_index(datapoints)].average as int
    }
}

/// No two samples have the same timestamp.
pub open spec fn distinct_instants(datapoints: Seq<Datapoint>) -> bool {
    forall|i: int, j: int|
        0 <= i < j < datapoints.len() ==> instant(datapoints[i]) != instant(datapoints[j])
}

/// At most one sample counts.
pub proof fn lemma_latest_is_unique(datapoints: Seq<Datapoint>, one: int, other: int)
    requires
        is_latest(datapoints, one),
        is_latest(datapoints, other),
    ensures
        one == other,
{
    if one < other {
        assert(instant(datapoints[one]) < instant(datapoints[other]));
        assert(instant(datapoints[other]) <= instant(datapoints[one]));
    } else if other < one {
        assert(instant(datapoints[other]) < instant(datapoints[one]));
        assert(instant(datapoints[one]) <= instant(datapoints[other]));
    }
}

/// Where the samples' timestamps differ, the sample that counts is the one
/// with the greatest timestamp, in whatever order the samples come.
pub proof fn lemma_latest_ignores_order(datapoints: Seq<Datapoint>, shuffled: Seq<Datapoint>)
    requires
        datapoints.len() > 0,
        distinct_instants(datapoints),
        datapoints.to_multiset() == shuffled.to_multiset(),
    ensures
        is_latest(datapoints, latest_index(datapoints)),
        is_latest(shuffled, latest_index(shuffled)),
        forall|i: int|
            0 <= i < datapoints.len() ==> instant(datapoints[i]) <= instant(
                shuffled[latest_index(shuffled)],
            ),
        shuffled[latest_index(shuffled)] == datapoints[latest_index(datapoints)],
        class_bytes(shuffled) == class_bytes(datapoints),
{
    broadcast use vstd::seq_lib::to_multiset_contains, vstd::seq_lib::to_multiset_len;

    assert(datapoints.to_multiset().len() == datapoints.len());
    assert(shuffled.to_multiset().len() == shuffled.len());
    lemma_latest_exists(datapoints);
    lemma_latest_exists(shuffled);
    let here = latest_index(datapoints);
    let there = latest_index(shuffled);
    let mine = datapoints[here];
    let theirs = shuffled[there];
    // each choice occurs in the other sequence
    assert(datapoints.contains(mine));
    assert(shuffled.to_multiset().contains(mine));
    assert(shuffled.contains(mine));
    let mine_there = choose|i: int| 0 <= i < shuffled.len() && shuffled[i] == mine;
    assert(shuffled.contains(theirs));
    assert(datapoints.to_multiset().contains(theirs));
    assert(datapoints.contains(theirs));
    let theirs_here = choose|i: int| 0 <= i < datapoints.len() && datapoints[i] == theirs;
    assert(instant(shuffled[mine_there]) <= instant(theirs));
    assert(instant(datapoints[theirs_here]) <= instant(mine));
    assert(theirs_here == here);
}

/// A sample counts wherever there is one.
pub proof fn lemma_latest_exists(datapoints: Seq<Datapoint>)
    requires
        datapoints.len() > 0,
    ensures
        is_latest(datapoints, latest_index(datapoints)),
    decreases datapoints.len(),
{
    if datapoints.len() == 1 {
        assert(is_latest(datapoints, 0));
    } else {
        let front = datapoints.drop_last();
        lemma_latest_exists(front);
        let before = latest_index(front);
        let last = datapoints.len() - 1;
        assert forall|i: int| 0 <= i < front.len() implies front[i] == datapoints[i] by {}
        if instant(datapoints[last]) > instant(front[before]) {
            assert(is_latest(datapoints, last));
        } else {
            assert(is_latest(datapoints, before));
        }
    }
}

/// Where `datapoint` stands in time.
fn instant_of(datapoint: &Datapoint) -> (nanoseconds: i128)
    ensures
        nanoseconds == instant(*datapoint),
{
    match datapoint.timestamp {
        Some(timestamp) => timestamp.seconds as i128 * 1_000_000_000 + timestamp.subsecond_nanos as i128,
        None => -0x8000_0000_0000_0000i128 * 1_000_000_000 - 1,
    }
}

/// Finds the sample that counts.
pub fn latest(datapoints: &Vec<Datapoint>) -> (found: Option<usize>)
    ensures
        datapoints.len() == 0 ==> found is None,
        datapoints.len() > 0 ==> found == Some(latest_index(datapoints@) as usize) && is_latest(
            datapoints@,
            latest_index(datapoints@),
        ),
{
    if datapoints.len() == 0 {
        return None;
    }
    let mut best: usize = 0;
    let mut best_instant: i128 = instant_of(&datapoints[0]);
    let mut at: usize = 1;
    while at < datapoints.len()
        invariant
            1 <= at <= datapoints.len(),
            best < at,
            best_instant == instant(datapoints@[best as int]),
            is_latest(datapoints@.take(at as int), best as int),
        decreases datapoints.len() - at,
    {
        let here: i128 = instant_of(&datapoints[at]);
        if here > best_instant {
            best = at;
            best_instant = here;
        }
        at = at + 1;
    }
    proof {
        assert(datapoints@.take(at as int) =~= datapoints@);
        lemma_latest_exists(datapoints@);
        lemma_latest_is_unique(datapoints@, best as int, latest_index(datapoints@));
    }
    Some(best)
}

} // verus!

//! Which buckets a discovery comes to over all its requests.
use crate::common::bucket::BucketModel;
use crate::common::error::ErrorModel;
use crate::common::region::{translated, RegionModel};
use crate::s3::bucket_list::{names_of, ListBucketsOutput};
use crate::s3::bucket_sizer::{
    candidates, constraint_of, discovery_stepped, found_bucket, listable, to_name, DiscoveryModel,
    DiscoveryResponse, DiscoveryStepModel, SearchingModel,
};
use vstd::prelude::*;

verus! {

/// What the service knows of a bucket that discovery looks at.
pub struct Facts {
    /// The bucket's location constraint, where it has one.
    pub location: Option<String>,
    /// Whether a probe of the bucket succeeds.
    pub granted: bool,
}

/// The region that a bucket with these facts lives in.
pub open spec fn home_of(facts: Facts) -> RegionModel {
    RegionModel { id: Some(translated(constraint_of(facts.location))), endpoint: None }
}

/// Whether discovery takes a bucket with these facts: it does where the
/// client can list the bucket and the probe succeeds.
pub open spec fn taken(facts: Facts, client: Option<Seq<char>>, custom_region: bool) -> bool {
    listable(home_of(facts).id, client, custom_region) && facts.granted
}

/// How a discovery ends when its requests are answered with `responses`,
/// one after the other. `None`: the discovery still waits for an answer
/// when they are used up.
pub open spec fn discovery_run(
    walk: DiscoveryModel,
    responses: Seq<Result<DiscoveryResponse, String>>,
) -> Option<Result<Seq<BucketModel>, ErrorModel>>
    decreases responses.len(),
{
    if responses.len() == 0 {
        None
    } else {
        match discovery_stepped(walk, responses[0]) {
            DiscoveryStepModel::Send(next, _) => discovery_run(next, responses.drop_first()),
            DiscoveryStepModel::Done(buckets) => Some(Ok(buckets)),
            DiscoveryStepModel::Failed(error) => Some(Err(error)),
        }
    }
}

/// The answers that the service gives to a discovery that looks at buckets
/// with these facts, one bucket after the other: each bucket's location,
/// and the outcome of its probe where the client can list the bucket.
pub open spec fn answers(facts: Seq<Facts>, client: Option<Seq<char>>, custom_region: bool) -> Seq<
    Result<DiscoveryResponse, String>,
>
    decreases facts.len(),
{
    if facts.len() == 0 {
        Seq::empty()
    } else {
        let location = Ok::<DiscoveryResponse, String>(
            DiscoveryResponse::Location(facts[0].location),
        );
        let access = Ok::<DiscoveryResponse, String>(DiscoveryResponse::Access(facts[0].granted));
        let rest = answers(facts.drop_first(), client, custom_region);
        if listable(home_of(facts[0]).id, client, custom_region) {
            seq![location, access] + rest
        } else {
            seq![location] + rest
        }
    }
}

/// The buckets among `names` that discovery takes, in order, where
/// `facts` holds what the service knows of each.
pub open spec fn reachable(
    names: Seq<Seq<char>>,
    facts: Seq<Facts>,
    client: Option<Seq<char>>,
    custom_region: bool,
) -> Seq<BucketModel>
    decreases names.len(),
{
    if names.len() == 0 || facts.len() == 0 {
        Seq::empty()
    } else {
        let rest = reachable(names.drop_first(), facts.drop_first(), client, custom_region);
        if taken(facts[0], client, custom_region) {
            seq![found_bucket(names[0], home_of(facts[0]))] + rest
        } else {
            rest
        }
    }
}

/// From the name at `at` on, a discovery finds the buckets that it takes,
/// on top of those it has found.
proof fn lemma_run_from_name(
    walk: DiscoveryModel,
    names: Seq<Seq<char>>,
    at: int,
    found: Seq<BucketModel>,
    facts: Seq<Facts>,
)
    requires
        0 <= at < names.len(),
        facts.len() == names.len() - at,
        walk.searching == (SearchingModel::Location { names, at, found }),
    ensures
        discovery_run(walk, answers(facts, walk.region.id, walk.custom_region)) == Some(
            Ok::<Seq<BucketModel>, ErrorModel>(
                found + reachable(names.skip(at), facts, walk.region.id, walk.custom_region),
            ),
        ),
    decreases names.len() - at,
{
    let client = walk.region.id;
    let custom = walk.custom_region;
    let first = facts[0];
    let later = facts.drop_first();
    let tail = answers(later, client, custom);
    let location = Ok::<DiscoveryResponse, String>(DiscoveryResponse::Location(first.location));
    let access = Ok::<DiscoveryResponse, String>(DiscoveryResponse::Access(first.granted));
    let all = answers(facts, client, custom);
    let home = home_of(first);
    assert(names.skip(at).drop_first() =~= names.skip(at + 1));
    assert(names.skip(at)[0] == names[at]);
    let rest = reachable(names.skip(at + 1), later, client, custom);
    let found_after = if taken(first, client, custom) {
        found.push(found_bucket(names[at], home))
    } else {
        found
    };
    assert(found + reachable(names.skip(at), facts, client, custom) =~= found_after + rest);
    // the state that discovery is in once it is through with this name
    let onward = to_name(walk, names, at + 1, found_after);
    if listable(home.id, client, custom) {
        assert(all =~= seq![location, access] + tail);
        assert(all[0] == location);
        assert(all.drop_first() =~= seq![access] + tail);
        let probing = DiscoveryModel {
            searching: SearchingModel::Access { names, at, region: home, found },
            ..walk
        };
        assert(discovery_stepped(walk, location) matches DiscoveryStepModel::Send(next, _) && next
            == probing);
        assert((seq![access] + tail)[0] == access);
        assert((seq![access] + tail).drop_first() =~= tail);
        assert(discovery_stepped(probing, access) == to_name(
            probing,
            names,
            at + 1,
            found_after,
        ));
        if at + 1 < names.len() {
            let next = DiscoveryModel {
                searching: SearchingModel::Location { names, at: at + 1, found: found_after },
                ..walk
            };
            lemma_run_from_name(next, names, at + 1, found_after, later);
            assert(discovery_run(probing, seq![access] + tail) == discovery_run(next, tail));
        } else {
            assert(names.skip(at + 1) =~= Seq::<Seq<char>>::empty());
            assert(found_after + rest =~= found_after);
        }
    } else {
        assert(all =~= seq![location] + tail);
        assert(all[0] == location);
        assert(all.drop_first() =~= tail);
        assert(discovery_stepped(walk, location) == onward);
        if at + 1 < names.len() {
            let next = DiscoveryModel {
                searching: SearchingModel::Location { names, at: at + 1, found: found_after },
                ..walk
            };
            lemma_run_from_name(next, names, at + 1, found_after, later);
        } else {
            assert(names.skip(at + 1) =~= Seq::<Seq<char>>::empty());
            assert(found_after + rest =~= found_after);
        }
    }
}

/// A discovery that is answered throughout hands out the buckets that it
/// can list and reach, and no others: of the listed names that it looks at,
/// in their order, those whose bucket lives in the client's region, or any
/// region where the client's is none of the provider's, and whose probe
/// succeeds. A bucket whose probe fails is left out, and the discovery does
/// not fail for it.
pub proof fn lemma_discovery_finds_the_reachable(
    walk: DiscoveryModel,
    output: ListBucketsOutput,
    facts: Seq<Facts>,
)
    requires
        walk.searching == SearchingModel::Names,
        facts.len() == candidates(names_of(output), walk.bucket_name).len(),
    ensures
        discovery_run(
            walk,
            seq![Ok::<DiscoveryResponse, String>(DiscoveryResponse::Buckets(output))] + answers(
                facts,
                walk.region.id,
                walk.custom_region,
            ),
        ) == Some(
            Ok::<Seq<BucketModel>, ErrorModel>(
                reachable(
                    candidates(names_of(output), walk.bucket_name),
                    facts,
                    walk.region.id,
                    walk.custom_region,
                ),
            ),
        ),
{
    let names = candidates(names_of(output), walk.bucket_name);
    let listing = Ok::<DiscoveryResponse, String>(DiscoveryResponse::Buckets(output));
    let tail = answers(facts, walk.region.id, walk.custom_region);
    let all = seq![listing] + tail;
    assert(all[0] == listing);
    assert(all.drop_first() =~= tail);
    if names.len() > 0 {
        let next = DiscoveryModel {
            searching: SearchingModel::Location { names, at: 0, found: Seq::empty() },
            ..walk
        };
        lemma_run_from_name(next, names, 0, Seq::empty(), facts);
        assert(names.skip(0) =~= names);
        assert(Seq::<BucketModel>::empty() + reachable(
            names,
            facts,
            walk.region.id,
            walk.custom_region,
        ) =~= reachable(names, facts, walk.region.id, walk.custom_region));
    }
}

} // verus!

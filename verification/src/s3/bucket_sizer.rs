//! Finding the buckets that can be sized by listing them.
//!
//! The buckets of the account are listed once. Each of them, or the one
//! that was chosen, is asked for its region, and those of the client's
//! region are probed for access. A bucket that cannot be reached is left
//! out without a word; a request for the list or for a region that fails
//! fails the discovery, and no bucket found up to then is handed out.
use crate::common::bucket::{Bucket, BucketModel, Buckets};
use crate::common::error::{Error, ErrorModel};
use crate::common::region::{translated, Region, RegionModel};
use crate::common::text::{chars_of, copy_of};
use crate::s3::bucket_list::{names_of, BucketList, ListBucketsOutput};
use crate::s3::client::{opening, Client, Request, Sizing};
use vstd::prelude::*;

verus! {

/// A request that discovery makes.
#[derive(Debug, Clone, PartialEq, Eq)]
pub enum DiscoveryRequest {
    /// The buckets of the account.
    ListBuckets,
    /// The location constraint of a bucket.
    GetBucketLocation { bucket: String },
    /// A probe: whether the bucket exists and can be read.
    HeadBucket { bucket: String },
}

/// The model of a [`DiscoveryRequest`].
pub enum DiscoveryRequestModel {
    ListBuckets,
    GetBucketLocation { bucket: Seq<char> },
    HeadBucket { bucket: Seq<char> },
}

impl DeepView for DiscoveryRequest {
    type V = DiscoveryRequestModel;

    open spec fn deep_view(&self) -> DiscoveryRequestModel {
        match self {
            DiscoveryRequest::ListBuckets => DiscoveryRequestModel::ListBuckets,
            DiscoveryRequest::GetBucketLocation {
                bucket,
            } => DiscoveryRequestModel::GetBucketLocation { bucket: bucket@ },
            DiscoveryRequest::HeadBucket { bucket } => DiscoveryRequestModel::HeadBucket {
                bucket: bucket@,
            },
        }
    }
}

/// The answer to a [`DiscoveryRequest`].
#[derive(Debug, Clone, PartialEq, Eq)]
pub enum DiscoveryResponse {
    /// Answers [`DiscoveryRequest::ListBuckets`].
    Buckets(ListBucketsOutput),
    /// Answers [`DiscoveryRequest::GetBucketLocation`] with the bucket's
    /// location constraint, where it has one.
    Location(Option<String>),
    /// Answers [`DiscoveryRequest::HeadBucket`]: whether the probe succeeded.
    Access(bool),
}

/// What discovery waits for.
#[derive(Debug, Clone)]
pub enum Searching {
    /// The list of buckets.
    Names,
    /// The location of the bucket at `at` of `names`.
    Location { names: Vec<String>, at: usize, found: Buckets },
    /// The probe of the bucket at `at` of `names`, which lives in `region`.
    Access { names: Vec<String>, at: usize, region: Region, found: Buckets },
}

/// The model of [`Searching`].
pub enum SearchingModel {
    Names,
    Location { names: Seq<Seq<char>>, at: int, found: Seq<BucketModel> },
    Access { names: Seq<Seq<char>>, at: int, region: RegionModel, found: Seq<BucketModel> },
}

impl DeepView for Searching {
    type V = SearchingModel;

    open spec fn deep_view(&self) -> SearchingModel {
        match self {
            Searching::Names => SearchingModel::Names,
            Searching::Location { names, at, found } => SearchingModel::Location {
                names: names.deep_view(),
                at: *at as int,
                found: found.deep_view(),
            },
            Searching::Access { names, at, region, found } => SearchingModel::Access {
                names: names.deep_view(),
                at: *at as int,
                region: region.deep_view(),
                found: found.deep_view(),
            },
        }
    }
}

/// A discovery under way.
#[derive(Debug, Clone)]
pub struct Discovery {
    /// The one bucket to report on, where one was chosen.
    pub bucket_name: Option<String>,
    /// The client's region.
    pub region: Region,
    /// Whether the client's region is none of the provider's own, so that
    /// buckets are taken whatever region they report.
    pub custom_region: bool,
    /// What discovery waits for.
    pub searching: Searching,
}

/// The model of a [`Discovery`].
pub struct DiscoveryModel {
    pub bucket_name: Option<Seq<char>>,
    pub region: RegionModel,
    pub custom_region: bool,
    pub searching: SearchingModel,
}

impl DeepView for Discovery {
    type V = DiscoveryModel;

    open spec fn deep_view(&self) -> DiscoveryModel {
        DiscoveryModel {
            bucket_name: chars_of(self.bucket_name),
            region: self.region.deep_view(),
            custom_region: self.custom_region,
            searching: self.searching.deep_view(),
        }
    }
}

/// What discovery does next.
#[derive(Debug, Clone)]
pub enum DiscoveryStep {
    /// Send the request and hand its answer to the discovery.
    Send(Discovery, DiscoveryRequest),
    /// These are the buckets that can be sized.
    Done(Buckets),
    /// Discovery has failed; the buckets found are dropped.
    Failed(Error),
}

/// The model of a [`DiscoveryStep`].
pub enum DiscoveryStepModel {
    Send(DiscoveryModel, DiscoveryRequestModel),
    Done(Seq<BucketModel>),
    Failed(ErrorModel),
}

impl DeepView for DiscoveryStep {
    type V = DiscoveryStepModel;

    open spec fn deep_view(&self) -> DiscoveryStepModel {
        match self {
            DiscoveryStep::Send(walk, request) => DiscoveryStepModel::Send(
                walk.deep_view(),
                request.deep_view(),
            ),
            DiscoveryStep::Done(buckets) => DiscoveryStepModel::Done(buckets.deep_view()),
            DiscoveryStep::Failed(error) => DiscoveryStepModel::Failed(error.deep_view()),
        }
    }
}

/// Whether discovery looks at a name: at every name where no bucket was
/// chosen, else at the chosen one.
pub open spec fn is_candidate(chosen: Option<Seq<char>>) -> spec_fn(Seq<char>) -> bool {
    |name: Seq<char>| chosen is None || chosen == Some(name)
}

/// The listed names that discovery looks at, in the order they were listed.
pub open spec fn candidates(listed: Seq<Seq<char>>, chosen: Option<Seq<char>>) -> Seq<Seq<char>> {
    listed.filter(is_candidate(chosen))
}

/// The characters of a location constraint: none where the bucket has none.
pub open spec fn constraint_of(raw: Option<String>) -> Seq<char> {
    match raw {
        Some(raw) => raw@,
        None => Seq::empty(),
    }
}

/// Whether a client can list a bucket that lives in `home`: it can where
/// that is the client's region, and anywhere where its region is none of the
/// provider's own.
pub open spec fn listable(home: Option<Seq<char>>, client: Option<Seq<char>>, custom_region: bool)
    -> bool {
    home == client || custom_region
}

/// A bucket as discovery hands it out: named, in its region, without
/// storage classes.
pub open spec fn found_bucket(name: Seq<char>, region: RegionModel) -> BucketModel {
    BucketModel { name, region: Some(region), storage_types: None }
}

/// What discovery does when it turns to the name at `at`: it asks for that
/// bucket's location, or is done where the names are used up.
pub open spec fn to_name(
    walk: DiscoveryModel,
    names: Seq<Seq<char>>,
    at: int,
    found: Seq<BucketModel>,
) -> DiscoveryStepModel {
    if 0 <= at < names.len() {
        DiscoveryStepModel::Send(
            DiscoveryModel { searching: SearchingModel::Location { names, at, found }, ..walk },
            DiscoveryRequestModel::GetBucketLocation { bucket: names[at] },
        )
    } else {
        DiscoveryStepModel::Done(found)
    }
}

/// What a discovery in state `walk` does with `response`.
///
/// A request that failed fails the discovery with the transport's error,
/// and an answer to another request than the one made fails it as
/// unexpected. The list of buckets gives the names to look at. A bucket's
/// location takes discovery to the probe where the client can list the
/// bucket, and to the next name where it cannot. After the probe the bucket
/// is among those found if the probe succeeded, and discovery turns to the
/// next name either way.
pub open spec fn discovery_stepped(walk: DiscoveryModel, response: Result<DiscoveryResponse, String>)
    -> DiscoveryStepModel {
    match response {
        Err(text) => DiscoveryStepModel::Failed(ErrorModel::Transport(text@)),
        Ok(DiscoveryResponse::Buckets(output)) => match walk.searching {
            SearchingModel::Names => to_name(
                walk,
                candidates(names_of(output), walk.bucket_name),
                0,
                Seq::empty(),
            ),
            _ => DiscoveryStepModel::Failed(ErrorModel::UnexpectedResponse),
        },
        Ok(DiscoveryResponse::Location(raw)) => match walk.searching {
            SearchingModel::Location { names, at, found } => if 0 <= at < names.len() {
                let home = RegionModel { id: Some(translated(constraint_of(raw))), endpoint: None };
                if listable(home.id, walk.region.id, walk.custom_region) {
                    DiscoveryStepModel::Send(
                        DiscoveryModel {
                            searching: SearchingModel::Access { names, at, region: home, found },
                            ..walk
                        },
                        DiscoveryRequestModel::HeadBucket { bucket: names[at] },
                    )
                } else {
                    to_name(walk, names, at + 1, found)
                }
            } else {
                DiscoveryStepModel::Failed(ErrorModel::UnexpectedResponse)
            },
            _ => DiscoveryStepModel::Failed(ErrorModel::UnexpectedResponse),
        },
        Ok(DiscoveryResponse::Access(granted)) => match walk.searching {
            SearchingModel::Access { names, at, region, found } => if 0 <= at < names.len() {
                to_name(
                    walk,
                    names,
                    at + 1,
                    if granted {
                        found.push(found_bucket(names[at], region))
                    } else {
                        found
                    },
                )
            } else {
                DiscoveryStepModel::Failed(ErrorModel::UnexpectedResponse)
            },
            _ => DiscoveryStepModel::Failed(ErrorModel::UnexpectedResponse),
        },
    }
}

/// The names among `listed` that discovery looks at.
pub fn select_candidates(listed: Vec<String>, chosen: &Option<String>) -> (names: Vec<String>)
    ensures
        names.deep_view() == candidates(listed.deep_view(), chars_of(*chosen)),
{
    let ghost all = listed.deep_view();
    let ghost wanted = chars_of(*chosen);
    let mut names: Vec<String> = Vec::new();
    let mut at: usize = 0;
    proof {
        assert(all.take(0) =~= Seq::<Seq<char>>::empty());
        assert(names.deep_view() =~= candidates(all.take(0), wanted));
    }
    while at < listed.len()
        invariant
            at <= listed.len(),
            all == listed.deep_view(),
            wanted == chars_of(*chosen),
            names.deep_view() == candidates(all.take(at as int), wanted),
        decreases listed.len() - at,
    {
        let ghost before = names.deep_view();
        proof {
            assert(all.take(at + 1).drop_last() =~= all.take(at as int));
            assert(all.take(at + 1).last() == all[at as int]);
            assert(all[at as int] == listed@[at as int]@);
        }
        let keep = match chosen {
            Some(chosen) => listed[at] == *chosen,
            None => true,
        };
        if keep {
            names.push(listed[at].clone());
            proof {
                assert(names.deep_view() =~= before.push(all[at as int]));
            }
        }
        proof {
            assert(keep == is_candidate(wanted)(all[at as int]));
            all.take(at as int).lemma_filter_push(all[at as int], is_candidate(wanted));
            assert(all.take(at + 1) =~= all.take(at as int).push(all[at as int]));
        }
        at = at + 1;
    }
    proof {
        assert(all.take(at as int) =~= all);
    }
    names
}

/// Whether a client in `client` can list a bucket that lives in `home`.
pub fn is_listable(home: &Region, client: &Region, custom_region: bool) -> (can: bool)
    ensures
        can == listable(home.id(), client.id(), custom_region),
{
    home.same_region(client) || custom_region
}

/// Turns to the name at `at`.
fn turn_to_name(
    bucket_name: Option<String>,
    region: Region,
    custom_region: bool,
    names: Vec<String>,
    at: usize,
    found: Buckets,
) -> (step: DiscoveryStep)
    ensures
        step.deep_view() == to_name(
            DiscoveryModel {
                bucket_name: chars_of(bucket_name),
                region: region.deep_view(),
                custom_region,
                searching: SearchingModel::Names,
            },
            names.deep_view(),
            at as int,
            found.deep_view(),
        ),
{
    if at < names.len() {
        let bucket = names[at].clone();
        proof {
            assert(names.deep_view()[at as int] == names@[at as int]@);
        }
        DiscoveryStep::Send(
            Discovery {
                bucket_name,
                region,
                custom_region,
                searching: Searching::Location { names, at, found },
            },
            DiscoveryRequest::GetBucketLocation { bucket },
        )
    } else {
        DiscoveryStep::Done(found)
    }
}

impl Client {
    /// The names of the buckets that `output` lists.
    pub fn list_buckets(&self, output: ListBucketsOutput) -> (names: Vec<String>)
        ensures
            names.deep_view() == names_of(output),
    {
        BucketList::from(output).0
    }

    /// Starts a discovery: nothing is found yet, and the list of buckets is
    /// asked for.
    pub fn buckets(&self) -> (start: (Discovery, DiscoveryRequest))
        ensures
            start.0.deep_view() == (DiscoveryModel {
                bucket_name: chars_of(self.bucket_name),
                region: self.region.deep_view(),
                custom_region: start.0.custom_region,
                searching: SearchingModel::Names,
            }),
            start.0.custom_region == !crate::common::region::published_location_constraint(
                self.region.shown(),
            ),
            start.1 == DiscoveryRequest::ListBuckets,
    {
        let region = Region {
            region: copy_of(&self.region.region),
            endpoint: copy_of(&self.region.endpoint),
        };
        (
            Discovery {
                bucket_name: copy_of(&self.bucket_name),
                region,
                custom_region: self.is_custom_client_region(),
                searching: Searching::Names,
            },
            DiscoveryRequest::ListBuckets,
        )
    }
}

impl Client {
    /// Starts the walk that sizes `bucket` under the client's selection. The
    /// bucket itself is left as it is.
    pub fn bucket_size(&self, bucket: &Bucket) -> (start: (Sizing, Request))
        ensures
            (start.0.deep_view(), start.1.deep_view()) == opening(
                self.object_versions,
                self.with_multipart,
            ),
    {
        self.size_objects()
    }
}

impl Discovery {
    /// Takes the answer to the request that the discovery made last, and
    /// says what it does next.
    pub fn on_response(self, response: Result<DiscoveryResponse, String>) -> (step: DiscoveryStep)
        ensures
            step.deep_view() == discovery_stepped(self.deep_view(), response),
    {
        let bucket_name = self.bucket_name;
        let region = self.region;
        let custom_region = self.custom_region;
        match response {
            Err(text) => DiscoveryStep::Failed(Error::Transport(text)),
            Ok(DiscoveryResponse::Buckets(output)) => match self.searching {
                Searching::Names => {
                    let listed = BucketList::from(output).0;
                    let names = select_candidates(listed, &bucket_name);
                    let found: Buckets = Vec::new();
                    proof {
                        assert(found.deep_view() =~= Seq::<BucketModel>::empty());
                    }
                    turn_to_name(bucket_name, region, custom_region, names, 0, found)
                },
                _ => DiscoveryStep::Failed(Error::UnexpectedResponse),
            },
            Ok(DiscoveryResponse::Location(raw)) => match self.searching {
                Searching::Location { names, at, found } => {
                    if at < names.len() {
                        let home = match raw {
                            Some(raw) => crate::common::region::translate_location_constraint(
                                raw.as_str(),
                            ),
                            None => {
                                proof {
                                    reveal_strlit("");
                                    assert(""@.len() == 0);
                                    assert(""@ =~= Seq::<char>::empty());
                                }
                                crate::common::region::translate_location_constraint("")
                            },
                        };
                        if is_listable(&home, &region, custom_region) {
                            let bucket = names[at].clone();
                            proof {
                                assert(names.deep_view()[at as int] == names@[at as int]@);
                            }
                            DiscoveryStep::Send(
                                Discovery {
                                    bucket_name,
                                    region,
                                    custom_region,
                                    searching: Searching::Access { names, at, region: home, found },
                                },
                                DiscoveryRequest::HeadBucket { bucket },
                            )
                        } else {
                            turn_to_name(bucket_name, region, custom_region, names, at + 1, found)
                        }
                    } else {
                        DiscoveryStep::Failed(Error::UnexpectedResponse)
                    }
                },
                _ => DiscoveryStep::Failed(Error::UnexpectedResponse),
            },
            Ok(DiscoveryResponse::Access(granted)) => match self.searching {
                Searching::Access { names, at, region: home, found } => {
                    if at < names.len() {
                        let mut found = found;
                        if granted {
                            let ghost before = found.deep_view();
                            let bucket = Bucket {
                                name: names[at].clone(),
                                region: Some(home),
                                storage_types: None,
                            };
                            proof {
                                assert(names.deep_view()[at as int] == names@[at as int]@);
                            }
                            found.push(bucket);
                            proof {
                                assert(found.deep_view() =~= before.push(bucket.deep_view()));
                            }
                        }
                        turn_to_name(bucket_name, region, custom_region, names, at + 1, found)
                    } else {
                        DiscoveryStep::Failed(Error::UnexpectedResponse)
                    }
                },
                _ => DiscoveryStep::Failed(Error::UnexpectedResponse),
            },
        }
    }
}

} // verus!

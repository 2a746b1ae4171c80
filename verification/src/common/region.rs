//! The region a client works in, and the region a bucket lives in.
use crate::common::text::{chars_of, same_text};
use vstd::prelude::*;

verus! {

/// A region identifier, with the endpoint to reach it by where that is not
/// the provider's own.
///
/// Two regions are the same region when their identifiers are: the endpoint
/// takes no part in `==`.
#[derive(Clone, Debug, Default)]
pub struct Region {
    /// The identifier, where one was given or found.
    pub region: Option<String>,
    /// The endpoint to use in place of the provider's.
    pub endpoint: Option<String>,
}

/// The model of a [`Region`]: its identifier and its endpoint, as characters.
pub struct RegionModel {
    pub id: Option<Seq<char>>,
    pub endpoint: Option<Seq<char>>,
}

impl DeepView for Region {
    type V = RegionModel;

    open spec fn deep_view(&self) -> RegionModel {
        RegionModel { id: chars_of(self.region), endpoint: chars_of(self.endpoint) }
    }
}

/// The first of `candidates` that is set and not empty.
pub open spec fn first_set(candidates: Seq<Option<Seq<char>>>) -> Option<Seq<char>>
    decreases candidates.len(),
{
    if candidates.len() == 0 {
        None
    } else if candidates[0] is Some && candidates[0]->0.len() > 0 {
        candidates[0]
    } else {
        first_set(candidates.drop_first())
    }
}

/// The identifier to work with: the one asked for outright, else the first
/// candidate that is set and not empty, else `us-east-1`.
pub open spec fn resolved(explicit: Option<Seq<char>>, candidates: Seq<Option<Seq<char>>>) -> Seq<
    char,
> {
    match explicit {
        Some(region) => region,
        None => match first_set(candidates) {
            Some(region) => region,
            None => "us-east-1"@,
        },
    }
}

/// The region that a bucket's location constraint stands for. Buckets of the
/// provider's first region report an empty constraint, and old buckets in
/// Ireland report `EU`; every other constraint is the region's identifier.
pub open spec fn translated(raw: Seq<char>) -> Seq<char> {
    if raw.len() == 0 {
        "us-east-1"@
    } else if raw == "EU"@ {
        "eu-west-1"@
    } else {
        raw
    }
}

/// Whether the AWS SDK knows `name` as a location constraint of S3.
pub uninterp spec fn published_location_constraint(name: Seq<char>) -> bool;

/// Asks `aws_sdk_s3::types::BucketLocationConstraint::try_parse` whether
/// `name` is a location constraint that the SDK knows. The names it knows
/// are a constant of the SDK; the contract gives the answer a name and
/// claims nothing about which names those are.
#[verifier::external_body]
fn is_published_location_constraint(name: &str) -> (published: bool)
    ensures
        published == published_location_constraint(name@),
{
    aws_sdk_s3::types::BucketLocationConstraint::try_parse(name).is_ok()
}

impl Region {
    /// The identifier's characters, where there is one.
    pub open spec fn id(&self) -> Option<Seq<char>> {
        chars_of(self.region)
    }

    /// The name shown for this region: its identifier, or `default`.
    pub open spec fn shown(&self) -> Seq<char> {
        match self.region {
            Some(region) => region@,
            None => "default"@,
        }
    }

    /// The region that the environment asks for. `candidates` are the values
    /// of `AWS_REGION` and `AWS_DEFAULT_REGION`, in that order.
    pub fn new(candidates: &Vec<Option<String>>) -> (found: Region)
        ensures
            found.id() == first_set(candidates.deep_view()),
            found.endpoint is None,
    {
        let ghost all = candidates.deep_view();
        let mut at: usize = 0;
        proof {
            assert(all.skip(0) =~= all);
        }
        while at < candidates.len()
            invariant
                at <= candidates.len(),
                all == candidates.deep_view(),
                first_set(all) == first_set(all.skip(at as int)),
            decreases candidates.len() - at,
        {
            proof {
                assert(all.skip(at as int).drop_first() =~= all.skip(at + 1));
                assert(all.skip(at as int)[0] == all[at as int]);
            }
            match &candidates[at] {
                Some(region) => {
                    if !region.as_str().is_empty() {
                        return Region { region: Some(region.clone()), endpoint: None };
                    }
                },
                None => {},
            }
            at = at + 1;
        }
        Region { region: None, endpoint: None }
    }

    /// The name to show for this region.
    pub fn name(&self) -> (name: &str)
        ensures
            name@ == self.shown(),
    {
        match &self.region {
            Some(region) => region.as_str(),
            None => "default",
        }
    }

    /// This region with its identifier set to `region`.
    pub fn set_region(self, region: &str) -> (changed: Region)
        ensures
            changed.id() == Some(region@),
            changed.endpoint == self.endpoint,
    {
        Region { region: Some(region.to_owned()), endpoint: self.endpoint }
    }

    /// This region with `endpoint` to reach it by.
    pub fn set_endpoint(self, endpoint: &str) -> (changed: Region)
        ensures
            changed.region == self.region,
            chars_of(changed.endpoint) == Some(endpoint@),
    {
        Region { region: self.region, endpoint: Some(endpoint.to_owned()) }
    }

    /// Whether this and `other` name the same region.
    pub fn same_region(&self, other: &Region) -> (same: bool)
        ensures
            same == (self.id() == other.id()),
    {
        match (&self.region, &other.region) {
            (Some(mine), Some(theirs)) => *mine == *theirs,
            (None, None) => true,
            _ => false,
        }
    }
}

impl PartialEq for Region {
    fn eq(&self, other: &Region) -> (same: bool) {
        self.same_region(other)
    }
}

impl vstd::std_specs::cmp::PartialEqSpecImpl for Region {
    open spec fn obeys_eq_spec() -> bool {
        true
    }

    open spec fn eq_spec(&self, other: &Region) -> bool {
        self.id() == other.id()
    }
}

/// The region to create a client in. `explicit` is the region asked for on the
/// command line, `candidates` the values that the environment offers, first
/// choice first.
pub fn resolve(explicit: Option<&str>, candidates: &Vec<Option<String>>) -> (region: Region)
    ensures
        region.id() == Some(resolved(chars_of_str(explicit), candidates.deep_view())),
        region.endpoint is None,
{
    match explicit {
        Some(region) => Region { region: Some(region.to_owned()), endpoint: None },
        None => {
            let found = Region::new(candidates);
            match found.region {
                Some(region) => Region { region: Some(region), endpoint: None },
                None => Region { region: Some("us-east-1".to_owned()), endpoint: None },
            }
        },
    }
}

/// The characters of an optional borrowed text.
pub open spec fn chars_of_str(text: Option<&str>) -> Option<Seq<char>> {
    match text {
        Some(text) => Some(text@),
        None => None,
    }
}

/// The region that the location constraint `raw` of a bucket stands for.
pub fn translate_location_constraint(raw: &str) -> (region: Region)
    ensures
        region.id() == Some(translated(raw@)),
        region.endpoint is None,
{
    let name = if raw.is_empty() {
        "us-east-1".to_owned()
    } else if same_text(raw, "EU") {
        "eu-west-1".to_owned()
    } else {
        raw.to_owned()
    };
    Region { region: Some(name), endpoint: None }
}

/// Whether `region` is none of the provider's published regions, as an
/// S3-compatible service's is. Such a client sees buckets whatever region
/// they report.
pub fn is_custom_region(region: &Region) -> (custom: bool)
    ensures
        custom == !published_location_constraint(region.shown()),
{
    !is_published_location_constraint(region.name())
}

/// Translating a location constraint that was translated before changes
/// nothing.
pub proof fn lemma_translation_is_idempotent(raw: Seq<char>)
    ensures
        translated(translated(raw)) == translated(raw),
{
    reveal_strlit("us-east-1");
    reveal_strlit("eu-west-1");
    reveal_strlit("EU");
}

} // verus!

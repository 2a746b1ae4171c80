//! The pages that S3 lists a bucket's contents in, and what each adds to the
//! bucket's size.
use crate::common::error::Error;
use crate::common::object_versions::ObjectVersions;
use crate::common::tally::{lemma_total_push, reported, settle, settled, total};
use crate::common::text::chars_of;
use vstd::prelude::*;

verus! {

/// One page of a bucket's current objects.
#[derive(Debug, Clone, PartialEq, Eq)]
pub struct ObjectPage {
    /// The size of each object on the page, where the service gave one.
    pub sizes: Vec<Option<i64>>,
    /// Whether the service cut the listing short.
    pub is_truncated: Option<bool>,
    /// Where the listing goes on.
    pub next_continuation_token: Option<String>,
}

/// One version of an object.
#[derive(Debug, Clone, Copy, PartialEq, Eq)]
pub struct ObjectVersion {
    /// The version's size, where the service gave one.
    pub size: Option<i64>,
    /// Whether this is the object's current version.
    pub is_latest: Option<bool>,
}

/// One page of the versions of a bucket's objects.
#[derive(Debug, Clone, PartialEq, Eq)]
pub struct VersionPage {
    /// The versions on the page.
    pub versions: Vec<ObjectVersion>,
    /// Whether the service cut the listing short.
    pub is_truncated: Option<bool>,
    /// The key at which the listing goes on.
    pub next_key_marker: Option<String>,
    /// The version at which the listing goes on.
    pub next_version_id_marker: Option<String>,
}

/// A multipart upload that was started and neither completed nor aborted.
#[derive(Debug, Clone, PartialEq, Eq)]
pub struct Upload {
    /// The key that the upload will be stored under.
    pub key: String,
    /// The upload's identifier.
    pub upload_id: String,
}

/// One page of a bucket's unfinished multipart uploads.
#[derive(Debug, Clone, PartialEq, Eq)]
pub struct UploadPage {
    /// The uploads on the page.
    pub uploads: Vec<Upload>,
    /// Whether the service cut the listing short.
    pub is_truncated: Option<bool>,
    /// The key at which the listing goes on.
    pub next_key_marker: Option<String>,
    /// The upload at which the listing goes on.
    pub next_upload_id_marker: Option<String>,
}

/// One page of the parts of a multipart upload.
#[derive(Debug, Clone, PartialEq, Eq)]
pub struct PartPage {
    /// The size of each part on the page, where the service gave one.
    pub sizes: Vec<Option<i64>>,
    /// Whether the service cut the listing short.
    pub is_truncated: Option<bool>,
    /// The part at which the listing goes on.
    pub next_part_number_marker: Option<String>,
}

/// The model of an [`Upload`].
pub struct UploadModel {
    pub key: Seq<char>,
    pub upload_id: Seq<char>,
}

impl DeepView for Upload {
    type V = UploadModel;

    open spec fn deep_view(&self) -> UploadModel {
        UploadModel { key: self.key@, upload_id: self.upload_id@ }
    }
}

/// Where a listing that takes two markers goes on.
#[derive(Debug, Clone, PartialEq, Eq)]
pub struct Markers {
    /// The key to go on at.
    pub key_marker: Option<String>,
    /// The version or upload to go on at.
    pub id_marker: Option<String>,
}

/// The model of [`Markers`].
pub struct MarkersModel {
    pub key_marker: Option<Seq<char>>,
    pub id_marker: Option<Seq<char>>,
}

impl DeepView for Markers {
    type V = MarkersModel;

    open spec fn deep_view(&self) -> MarkersModel {
        MarkersModel { key_marker: chars_of(self.key_marker), id_marker: chars_of(self.id_marker) }
    }
}

/// Whether a page says that the listing goes on after it. A page that does
/// not say is taken to be the last.
pub open spec fn goes_on(is_truncated: Option<bool>) -> bool {
    is_truncated == Some(true)
}

/// Whether a version counts under a selection: every version counts where
/// all are asked for, the version flagged as latest where the current ones
/// are, every other where the non-current ones are. The selection of
/// multipart uploads counts no version.
pub open spec fn counts(selector: ObjectVersions, version: ObjectVersion) -> bool {
    match selector {
        ObjectVersions::All => true,
        ObjectVersions::Current => version.is_latest == Some(true),
        ObjectVersions::NonCurrent => version.is_latest != Some(true),
        ObjectVersions::Multipart => false,
    }
}

/// What a version adds to a sum under a selection.
pub open spec fn counted(selector: ObjectVersions, version: ObjectVersion) -> int {
    if counts(selector, version) {
        reported(version.size)
    } else {
        0
    }
}

/// What each of `versions` adds to a sum under a selection.
pub open spec fn counted_sizes(selector: ObjectVersions, versions: Seq<ObjectVersion>) -> Seq<int> {
    versions.map_values(|version: ObjectVersion| counted(selector, version))
}

/// The current versions and the non-current versions add up to all
/// versions, however the versions are flagged.
pub proof fn lemma_current_and_non_current_make_all(versions: Seq<ObjectVersion>)
    ensures
        total(counted_sizes(ObjectVersions::Current, versions)) + total(
            counted_sizes(ObjectVersions::NonCurrent, versions),
        ) == total(counted_sizes(ObjectVersions::All, versions)),
        total(counted_sizes(ObjectVersions::All, versions)) == total(
            versions.map_values(|version: ObjectVersion| reported(version.size)),
        ),
    decreases versions.len(),
{
    let sizes = versions.map_values(|version: ObjectVersion| reported(version.size));
    if versions.len() > 0 {
        let front = versions.drop_last();
        lemma_current_and_non_current_make_all(front);
        assert(counted_sizes(ObjectVersions::Current, versions).drop_last() =~= counted_sizes(
            ObjectVersions::Current,
            front,
        ));
        assert(counted_sizes(ObjectVersions::NonCurrent, versions).drop_last() =~= counted_sizes(
            ObjectVersions::NonCurrent,
            front,
        ));
        assert(counted_sizes(ObjectVersions::All, versions).drop_last() =~= counted_sizes(
            ObjectVersions::All,
            front,
        ));
        assert(sizes.drop_last() =~= front.map_values(
            |version: ObjectVersion| reported(version.size),
        ));
    }
}

/// Whether `version` counts under `selector`.
pub fn is_counted(selector: ObjectVersions, version: &ObjectVersion) -> (counted: bool)
    ensures
        counted == counts(selector, *version),
{
    let latest = match version.is_latest {
        Some(latest) => latest,
        None => false,
    };
    match selector {
        ObjectVersions::All => true,
        ObjectVersions::Current => latest,
        ObjectVersions::NonCurrent => !latest,
        ObjectVersions::Multipart => false,
    }
}

/// The size that the versions of one page add up to under `selector`.
pub fn sum_versions(selector: ObjectVersions, versions: &Vec<ObjectVersion>) -> (size: Result<
    u64,
    Error,
>)
    ensures
        size == settled(total(counted_sizes(selector, versions@))),
{
    let ghost amounts = counted_sizes(selector, versions@);
    let mut sum: i128 = 0;
    let mut at: usize = 0;
    while at < versions.len()
        invariant
            at <= versions.len(),
            amounts == counted_sizes(selector, versions@),
            sum == total(amounts.take(at as int)),
            -0x8000_0000_0000_0000 * at <= sum <= 0x7fff_ffff_ffff_ffff * at,
        decreases versions.len() - at,
    {
        let bytes: i64 = if is_counted(selector, &versions[at]) {
            match versions[at].size {
                Some(bytes) => bytes,
                None => 0,
            }
        } else {
            0
        };
        proof {
            lemma_total_push(amounts.take(at as int), amounts[at as int]);
            assert(amounts.take(at + 1) =~= amounts.take(at as int).push(amounts[at as int]));
        }
        sum = sum + bytes as i128;
        at = at + 1;
    }
    proof {
        assert(amounts.take(at as int) =~= amounts);
    }
    settle(sum)
}

} // verus!

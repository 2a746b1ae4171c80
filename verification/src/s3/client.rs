//! The S3 client's settings, and the walk that sizes a bucket by listing it.
use crate::common::client_config::ClientConfig;
use crate::common::error::{Error, ErrorModel};
use crate::common::object_versions::ObjectVersions;
use crate::common::pager::{turn, turned, Turn};
use crate::common::region::{is_custom_region, published_location_constraint, translate_location_constraint, translated, Region};
use crate::common::tally::{reported_sizes, settled, sum_reported, total};
use crate::common::text::chars_of;
use crate::s3::listing::{
    counted_sizes, goes_on, sum_versions, Markers, MarkersModel, ObjectPage, PartPage, Upload,
    UploadModel, UploadPage, VersionPage,
};
use vstd::prelude::*;

verus! {

/// What the S3 backend was set up with.
#[derive(Debug, Clone)]
pub struct Client {
    /// The one bucket to report on, where one was chosen.
    pub bucket_name: Option<String>,
    /// Which objects count towards a bucket's size.
    pub object_versions: ObjectVersions,
    /// Whether the parts of unfinished multipart uploads are added where
    /// every version counts.
    pub with_multipart: bool,
    /// The region that buckets are listed in.
    pub region: Region,
}

/// A request for one page of a listing.
#[derive(Debug, Clone, PartialEq, Eq)]
pub enum Request {
    /// The current objects, from the token on.
    ListObjects { continuation_token: Option<String> },
    /// The versions of all objects, from the markers on.
    ListObjectVersions { key_marker: Option<String>, version_id_marker: Option<String> },
    /// The unfinished multipart uploads, from the markers on.
    ListMultipartUploads { key_marker: Option<String>, upload_id_marker: Option<String> },
    /// The parts of one multipart upload, from the marker on.
    ListParts { key: String, upload_id: String, part_number_marker: Option<String> },
}

/// The model of a [`Request`].
pub enum RequestModel {
    ListObjects { continuation_token: Option<Seq<char>> },
    ListObjectVersions { key_marker: Option<Seq<char>>, version_id_marker: Option<Seq<char>> },
    ListMultipartUploads { key_marker: Option<Seq<char>>, upload_id_marker: Option<Seq<char>> },
    ListParts { key: Seq<char>, upload_id: Seq<char>, part_number_marker: Option<Seq<char>> },
}

impl DeepView for Request {
    type V = RequestModel;

    open spec fn deep_view(&self) -> RequestModel {
        match self {
            Request::ListObjects { continuation_token } => RequestModel::ListObjects {
                continuation_token: chars_of(*continuation_token),
            },
            Request::ListObjectVersions {
                key_marker,
                version_id_marker,
            } => RequestModel::ListObjectVersions {
                key_marker: chars_of(*key_marker),
                version_id_marker: chars_of(*version_id_marker),
            },
            Request::ListMultipartUploads {
                key_marker,
                upload_id_marker,
            } => RequestModel::ListMultipartUploads {
                key_marker: chars_of(*key_marker),
                upload_id_marker: chars_of(*upload_id_marker),
            },
            Request::ListParts { key, upload_id, part_number_marker } => RequestModel::ListParts {
                key: key@,
                upload_id: upload_id@,
                part_number_marker: chars_of(*part_number_marker),
            },
        }
    }
}

/// The page that answers a [`Request`].
#[derive(Debug, Clone, PartialEq, Eq)]
pub enum Response {
    /// Answers [`Request::ListObjects`].
    Objects(ObjectPage),
    /// Answers [`Request::ListObjectVersions`].
    ObjectVersions(VersionPage),
    /// Answers [`Request::ListMultipartUploads`].
    MultipartUploads(UploadPage),
    /// Answers [`Request::ListParts`].
    Parts(PartPage),
}

/// The response that a walk waits for.
#[derive(Debug, Clone, PartialEq, Eq)]
pub enum Awaiting {
    /// A page of current objects.
    Objects,
    /// A page of object versions.
    Versions,
    /// A page of multipart uploads.
    Uploads,
    /// A page of the parts of the upload at `at` of `uploads`, a page of
    /// uploads whose listing goes on at `resume`, if it goes on.
    Parts { uploads: Vec<Upload>, at: usize, resume: Option<Markers> },
}

/// The model of [`Awaiting`].
pub enum AwaitingModel {
    Objects,
    Versions,
    Uploads,
    Parts { uploads: Seq<UploadModel>, at: int, resume: Option<MarkersModel> },
}

impl DeepView for Awaiting {
    type V = AwaitingModel;

    open spec fn deep_view(&self) -> AwaitingModel {
        match self {
            Awaiting::Objects => AwaitingModel::Objects,
            Awaiting::Versions => AwaitingModel::Versions,
            Awaiting::Uploads => AwaitingModel::Uploads,
            Awaiting::Parts { uploads, at, resume } => AwaitingModel::Parts {
                uploads: uploads.deep_view(),
                at: *at as int,
                resume: resume.deep_view(),
            },
        }
    }
}

/// A walk that sizes one bucket: what was counted, and what is waited for.
#[derive(Debug, Clone, PartialEq, Eq)]
pub struct Sizing {
    /// Which versions count in a listing of versions.
    pub selector: ObjectVersions,
    /// Whether the versions are listed once the multipart uploads are.
    pub versions_follow: bool,
    /// The bytes counted so far.
    pub size: u64,
    /// The response that the walk waits for.
    pub awaiting: Awaiting,
}

/// The model of a [`Sizing`].
pub struct SizingModel {
    pub selector: ObjectVersions,
    pub versions_follow: bool,
    pub size: u64,
    pub awaiting: AwaitingModel,
}

impl DeepView for Sizing {
    type V = SizingModel;

    open spec fn deep_view(&self) -> SizingModel {
        SizingModel {
            selector: self.selector,
            versions_follow: self.versions_follow,
            size: self.size,
            awaiting: self.awaiting.deep_view(),
        }
    }
}

/// What a walk does next.
#[derive(Debug, Clone, PartialEq, Eq)]
pub enum Step {
    /// Send the request and hand its response to the walk.
    Send(Sizing, Request),
    /// The bucket is sized.
    Done(u64),
    /// The walk has failed; what it had counted is dropped.
    Failed(Error),
}

/// The model of a [`Step`].
pub enum StepModel {
    Send(SizingModel, RequestModel),
    Done(u64),
    Failed(ErrorModel),
}

impl DeepView for Step {
    type V = StepModel;

    open spec fn deep_view(&self) -> StepModel {
        match self {
            Step::Send(walk, request) => StepModel::Send(walk.deep_view(), request.deep_view()),
            Step::Done(size) => StepModel::Done(*size),
            Step::Failed(error) => StepModel::Failed(error.deep_view()),
        }
    }
}

/// The walk that a selection starts with, and its first request. The current
/// objects are listed as such; the non-current versions and all versions are
/// taken from the listing of versions; the parts of unfinished multipart
/// uploads are listed upload by upload. Where all versions are asked for
/// together with the multipart uploads, the uploads are listed first and the
/// versions after them.
pub open spec fn opening(selector: ObjectVersions, with_multipart: bool) -> (
    SizingModel,
    RequestModel,
) {
    let uploads_first = selector == ObjectVersions::Multipart || (selector == ObjectVersions::All
        && with_multipart);
    if selector == ObjectVersions::Current {
        (
            SizingModel {
                selector,
                versions_follow: false,
                size: 0,
                awaiting: AwaitingModel::Objects,
            },
            RequestModel::ListObjects { continuation_token: None },
        )
    } else if uploads_first {
        (
            SizingModel {
                selector,
                versions_follow: selector == ObjectVersions::All,
                size: 0,
                awaiting: AwaitingModel::Uploads,
            },
            RequestModel::ListMultipartUploads { key_marker: None, upload_id_marker: None },
        )
    } else {
        (
            SizingModel {
                selector,
                versions_follow: false,
                size: 0,
                awaiting: AwaitingModel::Versions,
            },
            RequestModel::ListObjectVersions { key_marker: None, version_id_marker: None },
        )
    }
}

/// What a page of current objects or of parts adds to a size.
pub open spec fn listed_bytes(sizes: Seq<Option<i64>>) -> Result<u64, Error> {
    settled(total(reported_sizes(sizes)))
}

/// What a page of versions adds to a size under a selection.
pub open spec fn version_bytes(selector: ObjectVersions, page: VersionPage) -> Result<u64, Error> {
    settled(total(counted_sizes(selector, page.versions@)))
}

/// Where the listing goes on after a page that gives one token, if it goes
/// on.
pub open spec fn token_after(is_truncated: Option<bool>, token: Option<String>) -> Option<
    Option<String>,
> {
    if goes_on(is_truncated) {
        Some(token)
    } else {
        None
    }
}

/// Where the listing goes on after a page that gives two markers, if it goes
/// on.
pub open spec fn markers_after(
    is_truncated: Option<bool>,
    key_marker: Option<String>,
    id_marker: Option<String>,
) -> Option<Markers> {
    if goes_on(is_truncated) {
        Some(Markers { key_marker, id_marker })
    } else {
        None
    }
}

/// What a walk does once the uploads of a page are all listed: it asks for
/// the next page of uploads where the listing goes on; else it turns to the
/// versions where they follow; else it is done.
pub open spec fn after_uploads(walk: SizingModel, resume: Option<MarkersModel>) -> StepModel {
    match resume {
        Some(markers) => StepModel::Send(
            SizingModel { awaiting: AwaitingModel::Uploads, ..walk },
            RequestModel::ListMultipartUploads {
                key_marker: markers.key_marker,
                upload_id_marker: markers.id_marker,
            },
        ),
        None => if walk.versions_follow {
            StepModel::Send(
                SizingModel {
                    versions_follow: false,
                    awaiting: AwaitingModel::Versions,
                    ..walk
                },
                RequestModel::ListObjectVersions { key_marker: None, version_id_marker: None },
            )
        } else {
            StepModel::Done(walk.size)
        },
    }
}

/// What a walk does when it turns to the upload at `at` of a page: it asks
/// for the first page of that upload's parts, or goes on as after the page
/// where the page has no such upload.
pub open spec fn to_upload(
    walk: SizingModel,
    uploads: Seq<UploadModel>,
    at: int,
    resume: Option<MarkersModel>,
) -> StepModel {
    if 0 <= at < uploads.len() {
        StepModel::Send(
            SizingModel { awaiting: AwaitingModel::Parts { uploads, at, resume }, ..walk },
            RequestModel::ListParts {
                key: uploads[at].key,
                upload_id: uploads[at].upload_id,
                part_number_marker: None,
            },
        )
    } else {
        after_uploads(walk, resume)
    }
}

/// What a walk in state `walk` does with `response`.
///
/// A request that failed fails the walk with the transport's error, and a
/// page of another listing than the one waited for fails it as unexpected.
/// Otherwise the page's bytes are added as [`turned`] says, and the walk goes
/// on in its listing or, at the listing's end, to what comes after it.
pub open spec fn stepped(walk: SizingModel, response: Result<Response, String>) -> StepModel {
    match response {
        Err(text) => StepModel::Failed(ErrorModel::Transport(text@)),
        Ok(Response::Objects(page)) => match walk.awaiting {
            AwaitingModel::Objects => match turned(
                walk.size,
                listed_bytes(page.sizes@),
                token_after(page.is_truncated, page.next_continuation_token),
            ) {
                Turn::Fetch(size, token) => StepModel::Send(
                    SizingModel { size, ..walk },
                    RequestModel::ListObjects { continuation_token: chars_of(token) },
                ),
                Turn::Done(size) => StepModel::Done(size),
                Turn::Failed(error) => StepModel::Failed(error.deep_view()),
            },
            _ => StepModel::Failed(ErrorModel::UnexpectedResponse),
        },
        Ok(Response::ObjectVersions(page)) => match walk.awaiting {
            AwaitingModel::Versions => match turned(
                walk.size,
                version_bytes(walk.selector, page),
                markers_after(
                    page.is_truncated,
                    page.next_key_marker,
                    page.next_version_id_marker,
                ),
            ) {
                Turn::Fetch(size, markers) => StepModel::Send(
                    SizingModel { size, ..walk },
                    RequestModel::ListObjectVersions {
                        key_marker: chars_of(markers.key_marker),
                        version_id_marker: chars_of(markers.id_marker),
                    },
                ),
                Turn::Done(size) => StepModel::Done(size),
                Turn::Failed(error) => StepModel::Failed(error.deep_view()),
            },
            _ => StepModel::Failed(ErrorModel::UnexpectedResponse),
        },
        Ok(Response::MultipartUploads(page)) => match walk.awaiting {
            AwaitingModel::Uploads => to_upload(
                walk,
                page.uploads.deep_view(),
                0,
                markers_after(
                    page.is_truncated,
                    page.next_key_marker,
                    page.next_upload_id_marker,
                ).deep_view(),
            ),
            _ => StepModel::Failed(ErrorModel::UnexpectedResponse),
        },
        Ok(Response::Parts(page)) => match walk.awaiting {
            AwaitingModel::Parts { uploads, at, resume } => if 0 <= at < uploads.len() {
                match turned(
                    walk.size,
                    listed_bytes(page.sizes@),
                    token_after(page.is_truncated, page.next_part_number_marker),
                ) {
                    Turn::Fetch(size, marker) => StepModel::Send(
                        SizingModel { size, ..walk },
                        RequestModel::ListParts {
                            key: uploads[at].key,
                            upload_id: uploads[at].upload_id,
                            part_number_marker: chars_of(marker),
                        },
                    ),
                    Turn::Done(size) => to_upload(
                        SizingModel { size, ..walk },
                        uploads,
                        at + 1,
                        resume,
                    ),
                    Turn::Failed(error) => StepModel::Failed(error.deep_view()),
                }
            } else {
                StepModel::Failed(ErrorModel::UnexpectedResponse)
            },
            _ => StepModel::Failed(ErrorModel::UnexpectedResponse),
        },
    }
}

impl Client {
    /// A client for the given settings.
    pub fn new(config: ClientConfig) -> (client: Client)
        ensures
            client.bucket_name == config.bucket_name,
            client.object_versions == config.object_versions,
            client.with_multipart == config.with_multipart,
            client.region == config.region,
    {
        Client {
            bucket_name: config.bucket_name,
            object_versions: config.object_versions,
            with_multipart: config.with_multipart,
            region: config.region,
        }
    }

    /// The region that a bucket lives in, from the location constraint that
    /// the service reports for it. A bucket without one lives where a bucket
    /// with an empty one does.
    pub fn get_bucket_location(&self, location_constraint: Option<&str>) -> (region: Region)
        ensures
            region.id() == Some(
                translated(
                    match location_constraint {
                        Some(raw) => raw@,
                        None => Seq::empty(),
                    },
                ),
            ),
            region.endpoint is None,
    {
        match location_constraint {
            Some(raw) => translate_location_constraint(raw),
            None => {
                proof {
                    reveal_strlit("");
                    assert(""@.len() == 0);
                    assert(""@ =~= Seq::<char>::empty());
                }
                translate_location_constraint("")
            },
        }
    }

    /// Whether the client's region is none of the provider's own.
    pub fn is_custom_client_region(&self) -> (custom: bool)
        ensures
            custom == !published_location_constraint(self.region.shown()),
    {
        is_custom_region(&self.region)
    }

    /// What a page of current objects does to a walk that has counted
    /// `size`.
    pub fn size_current_objects(size: u64, page: ObjectPage) -> (turn: Turn<Option<String>>)
        ensures
            turn == turned(
                size,
                listed_bytes(page.sizes@),
                token_after(page.is_truncated, page.next_continuation_token),
            ),
    {
        let bytes = sum_reported(&page.sizes);
        let next = match page.is_truncated {
            Some(true) => Some(page.next_continuation_token),
            _ => None,
        };
        turn(size, bytes, next)
    }

    /// What a page of versions does to a walk that has counted `size` and
    /// counts the versions that `selector` names.
    pub fn size_object_versions(selector: ObjectVersions, size: u64, page: VersionPage) -> (turn:
        Turn<Markers>)
        ensures
            turn == turned(
                size,
                version_bytes(selector, page),
                markers_after(
                    page.is_truncated,
                    page.next_key_marker,
                    page.next_version_id_marker,
                ),
            ),
    {
        let bytes = sum_versions(selector, &page.versions);
        let next = match page.is_truncated {
            Some(true) => Some(
                Markers {
                    key_marker: page.next_key_marker,
                    id_marker: page.next_version_id_marker,
                },
            ),
            _ => None,
        };
        turn(size, bytes, next)
    }

    /// What a page of an upload's parts does to a walk that has counted
    /// `size`. An upload without parts adds nothing.
    pub fn size_parts(size: u64, page: PartPage) -> (turn: Turn<Option<String>>)
        ensures
            turn == turned(
                size,
                listed_bytes(page.sizes@),
                token_after(page.is_truncated, page.next_part_number_marker),
            ),
    {
        let bytes = sum_reported(&page.sizes);
        let next = match page.is_truncated {
            Some(true) => Some(page.next_part_number_marker),
            _ => None,
        };
        turn(size, bytes, next)
    }

    /// The uploads of a page whose parts are to be listed, and where the
    /// listing of uploads goes on after them, if it goes on.
    pub fn size_multipart_uploads(page: UploadPage) -> (found: (Vec<Upload>, Option<Markers>))
        ensures
            found.0 == page.uploads,
            found.1 == markers_after(
                page.is_truncated,
                page.next_key_marker,
                page.next_upload_id_marker,
            ),
    {
        let resume = match page.is_truncated {
            Some(true) => Some(
                Markers {
                    key_marker: page.next_key_marker,
                    id_marker: page.next_upload_id_marker,
                },
            ),
            _ => None,
        };
        (page.uploads, resume)
    }

    /// Starts the walk that sizes a bucket under the client's selection.
    pub fn size_objects(&self) -> (start: (Sizing, Request))
        ensures
            (start.0.deep_view(), start.1.deep_view()) == opening(
                self.object_versions,
                self.with_multipart,
            ),
    {
        let uploads_first = match self.object_versions {
            ObjectVersions::Multipart => true,
            ObjectVersions::All => self.with_multipart,
            _ => false,
        };
        let versions_follow = match self.object_versions {
            ObjectVersions::All => true,
            _ => false,
        };
        match self.object_versions {
            ObjectVersions::Current => (
                Sizing {
                    selector: self.object_versions,
                    versions_follow: false,
                    size: 0,
                    awaiting: Awaiting::Objects,
                },
                Request::ListObjects { continuation_token: None },
            ),
            _ => {
                if uploads_first {
                    (
                        Sizing {
                            selector: self.object_versions,
                            versions_follow,
                            size: 0,
                            awaiting: Awaiting::Uploads,
                        },
                        Request::ListMultipartUploads { key_marker: None, upload_id_marker: None },
                    )
                } else {
                    (
                        Sizing {
                            selector: self.object_versions,
                            versions_follow: false,
                            size: 0,
                            awaiting: Awaiting::Versions,
                        },
                        Request::ListObjectVersions { key_marker: None, version_id_marker: None },
                    )
                }
            },
        }
    }
}

/// Goes on once the uploads of a page are all listed.
fn go_on_after_uploads(
    selector: ObjectVersions,
    versions_follow: bool,
    size: u64,
    resume: Option<Markers>,
) -> (step: Step)
    ensures
        step.deep_view() == after_uploads(
            SizingModel { selector, versions_follow, size, awaiting: AwaitingModel::Uploads },
            resume.deep_view(),
        ),
{
    match resume {
        Some(markers) => Step::Send(
            Sizing { selector, versions_follow, size, awaiting: Awaiting::Uploads },
            Request::ListMultipartUploads {
                key_marker: markers.key_marker,
                upload_id_marker: markers.id_marker,
            },
        ),
        None => {
            if versions_follow {
                Step::Send(
                    Sizing { selector, versions_follow: false, size, awaiting: Awaiting::Versions },
                    Request::ListObjectVersions { key_marker: None, version_id_marker: None },
                )
            } else {
                Step::Done(size)
            }
        },
    }
}

/// Turns to the upload at `at` of a page.
fn turn_to_upload(
    selector: ObjectVersions,
    versions_follow: bool,
    size: u64,
    uploads: Vec<Upload>,
    at: usize,
    resume: Option<Markers>,
) -> (step: Step)
    ensures
        step.deep_view() == to_upload(
            SizingModel { selector, versions_follow, size, awaiting: AwaitingModel::Uploads },
            uploads.deep_view(),
            at as int,
            resume.deep_view(),
        ),
{
    if at < uploads.len() {
        let key = uploads[at].key.clone();
        let upload_id = uploads[at].upload_id.clone();
        proof {
            assert(uploads.deep_view()[at as int] == uploads@[at as int].deep_view());
        }
        Step::Send(
            Sizing {
                selector,
                versions_follow,
                size,
                awaiting: Awaiting::Parts { uploads, at, resume },
            },
            Request::ListParts { key, upload_id, part_number_marker: None },
        )
    } else {
        go_on_after_uploads(selector, versions_follow, size, resume)
    }
}

impl Sizing {
    /// Takes the response to the request that the walk made last, and says
    /// what the walk does next.
    pub fn on_response(self, response: Result<Response, String>) -> (step: Step)
        ensures
            step.deep_view() == stepped(self.deep_view(), response),
    {
        let selector = self.selector;
        let versions_follow = self.versions_follow;
        let size = self.size;
        match response {
            Err(text) => Step::Failed(Error::Transport(text)),
            Ok(Response::Objects(page)) => match self.awaiting {
                Awaiting::Objects => match Client::size_current_objects(size, page) {
                    Turn::Fetch(size, continuation_token) => Step::Send(
                        Sizing { selector, versions_follow, size, awaiting: Awaiting::Objects },
                        Request::ListObjects { continuation_token },
                    ),
                    Turn::Done(size) => Step::Done(size),
                    Turn::Failed(error) => Step::Failed(error),
                },
                _ => Step::Failed(Error::UnexpectedResponse),
            },
            Ok(Response::ObjectVersions(page)) => match self.awaiting {
                Awaiting::Versions => match Client::size_object_versions(selector, size, page) {
                    Turn::Fetch(size, markers) => Step::Send(
                        Sizing { selector, versions_follow, size, awaiting: Awaiting::Versions },
                        Request::ListObjectVersions {
                            key_marker: markers.key_marker,
                            version_id_marker: markers.id_marker,
                        },
                    ),
                    Turn::Done(size) => Step::Done(size),
                    Turn::Failed(error) => Step::Failed(error),
                },
                _ => Step::Failed(Error::UnexpectedResponse),
            },
            Ok(Response::MultipartUploads(page)) => match self.awaiting {
                Awaiting::Uploads => {
                    let (uploads, resume) = Client::size_multipart_uploads(page);
                    turn_to_upload(selector, versions_follow, size, uploads, 0, resume)
                },
                _ => Step::Failed(Error::UnexpectedResponse),
            },
            Ok(Response::Parts(page)) => match self.awaiting {
                Awaiting::Parts { uploads, at, resume } => {
                    if at < uploads.len() {
                        match Client::size_parts(size, page) {
                            Turn::Fetch(size, part_number_marker) => {
                                let key = uploads[at].key.clone();
                                let upload_id = uploads[at].upload_id.clone();
                                proof {
                                    assert(uploads.deep_view()[at as int] == uploads@[at as int].deep_view());
                                }
                                Step::Send(
                                    Sizing {
                                        selector,
                                        versions_follow,
                                        size,
                                        awaiting: Awaiting::Parts { uploads, at, resume },
                                    },
                                    Request::ListParts { key, upload_id, part_number_marker },
                                )
                            },
                            Turn::Done(size) => turn_to_upload(
                                selector,
                                versions_follow,
                                size,
                                uploads,
                                at + 1,
                                resume,
                            ),
                            Turn::Failed(error) => Step::Failed(error),
                        }
                    } else {
                        Step::Failed(Error::UnexpectedResponse)
                    }
                },
                _ => Step::Failed(Error::UnexpectedResponse),
            },
        }
    }
}

} // verus!

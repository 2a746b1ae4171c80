//! What a sizing walk comes to over the multipart uploads of a bucket.
use crate::common::error::ErrorModel;
use crate::common::tally::{lemma_total_concat, reported_sizes, total};
use crate::s3::client::{
    after_uploads, listed_bytes, markers_after, stepped, to_upload, AwaitingModel, Response,
    SizingModel, StepModel,
};
use crate::s3::completeness::{
    all_version_sizes, lemma_every_version_is_counted, lemma_total_flatten, run, summed,
    version_responses,
};
use crate::s3::client::version_bytes;
use crate::s3::listing::{counted_sizes, goes_on, PartPage, UploadPage, VersionPage};
use vstd::prelude::*;

verus! {

/// What the service lists for one page of uploads: the page, and for each
/// of its uploads the pages of that upload's parts.
pub struct ListedUploads {
    pub page: UploadPage,
    pub parts: Seq<Seq<PartPage>>,
}

/// How a walk goes on after a step when `tail` are the responses still to
/// come.
pub open spec fn continued(step: StepModel, tail: Seq<Result<Response, String>>) -> Option<
    Result<u64, ErrorModel>,
> {
    match step {
        StepModel::Send(next, _) => run(next, tail),
        StepModel::Done(size) => Some(Ok(size)),
        StepModel::Failed(error) => Some(Err(error)),
    }
}

/// How a walk that has counted `size` bytes goes on, given what it does
/// once that size is counted; it fails where the size is more than the
/// total holds.
pub open spec fn counted_then(
    size: int,
    then: spec_fn(u64) -> StepModel,
    tail: Seq<Result<Response, String>>,
) -> Option<Result<u64, ErrorModel>> {
    if size > u64::MAX {
        Some(Err(ErrorModel::SizeOverflow))
    } else {
        continued(then(size as u64), tail)
    }
}

/// The pages of an upload's parts as the service lists them: at least one,
/// each but the last cut short, and each one that can be counted.
pub open spec fn parts_listed(pages: Seq<PartPage>) -> bool {
    &&& pages.len() > 0
    &&& !goes_on(pages.last().is_truncated)
    &&& forall|i: int| 0 <= i < pages.len() - 1 ==> goes_on((#[trigger] pages[i]).is_truncated)
    &&& forall|i: int| 0 <= i < pages.len() ==> listed_bytes((#[trigger] pages[i]).sizes@) is Ok
}

/// The pages of uploads as the service lists them: at least one, each but
/// the last cut short, and with each upload the pages of its parts.
pub open spec fn uploads_listed(listing: Seq<ListedUploads>) -> bool {
    &&& listing.len() > 0
    &&& !goes_on(listing.last().page.is_truncated)
    &&& forall|i: int|
        0 <= i < listing.len() - 1 ==> goes_on((#[trigger] listing[i]).page.is_truncated)
    &&& forall|i: int|
        0 <= i < listing.len() ==> (#[trigger] listing[i]).parts.len()
            == listing[i].page.uploads@.len()
    &&& forall|i: int, j: int|
        0 <= i < listing.len() && 0 <= j < listing[i].parts.len() ==> parts_listed(
            #[trigger] listing[i].parts[j],
        )
}

/// The pages of an upload's parts as the responses that bring them.
pub open spec fn part_responses(pages: Seq<PartPage>) -> Seq<Result<Response, String>> {
    pages.map_values(|page: PartPage| Ok::<Response, String>(Response::Parts(page)))
}

/// The responses that bring the parts of the uploads of one page, upload
/// after upload.
pub open spec fn page_responses(parts: Seq<Seq<PartPage>>) -> Seq<Result<Response, String>> {
    parts.map_values(|pages: Seq<PartPage>| part_responses(pages)).flatten()
}

/// The responses that bring a whole listing: each page of uploads,
/// followed by the parts of its uploads.
pub open spec fn upload_responses(listing: Seq<ListedUploads>) -> Seq<Result<Response, String>> {
    listing.map_values(
        |listed: ListedUploads|
            seq![Ok::<Response, String>(Response::MultipartUploads(listed.page))] + page_responses(
                listed.parts,
            ),
    ).flatten()
}

/// What every part of an upload adds to a sum, page after page.
pub open spec fn upload_sizes(pages: Seq<PartPage>) -> Seq<int> {
    pages.map_values(|page: PartPage| reported_sizes(page.sizes@)).flatten()
}

/// What every part of every upload of one page adds to a sum.
pub open spec fn page_sizes(parts: Seq<Seq<PartPage>>) -> Seq<int> {
    parts.map_values(|pages: Seq<PartPage>| upload_sizes(pages)).flatten()
}

/// What every part of every upload of a listing adds to a sum.
pub open spec fn listing_sizes(listing: Seq<ListedUploads>) -> Seq<int> {
    listing.map_values(|listed: ListedUploads| page_sizes(listed.parts)).flatten()
}

/// The parts of an upload whose pages can be counted add up to no less than
/// nothing.
proof fn lemma_upload_sizes_not_negative(pages: Seq<PartPage>)
    requires
        forall|i: int| 0 <= i < pages.len() ==> listed_bytes((#[trigger] pages[i]).sizes@) is Ok,
    ensures
        total(upload_sizes(pages)) >= 0,
    decreases pages.len(),
{
    let runs = pages.map_values(|page: PartPage| reported_sizes(page.sizes@));
    if pages.len() == 0 {
        assert(upload_sizes(pages) =~= Seq::<int>::empty());
    } else {
        let rest = pages.drop_first();
        assert(runs.drop_first() =~= rest.map_values(
            |page: PartPage| reported_sizes(page.sizes@),
        ));
        assert forall|i: int| 0 <= i < rest.len() implies listed_bytes(
            (#[trigger] rest[i]).sizes@,
        ) is Ok by {
            assert(rest[i] == pages[i + 1]);
        }
        lemma_upload_sizes_not_negative(rest);
        lemma_total_concat(runs.first(), upload_sizes(rest));
        assert(listed_bytes(pages[0].sizes@) is Ok);
    }
}

/// The parts of uploads whose pages can be counted add up to no less than
/// nothing.
proof fn lemma_page_sizes_not_negative(parts: Seq<Seq<PartPage>>)
    requires
        forall|j: int| 0 <= j < parts.len() ==> parts_listed(#[trigger] parts[j]),
    ensures
        total(page_sizes(parts)) >= 0,
    decreases parts.len(),
{
    let runs = parts.map_values(|pages: Seq<PartPage>| upload_sizes(pages));
    if parts.len() == 0 {
        assert(page_sizes(parts) =~= Seq::<int>::empty());
    } else {
        let rest = parts.drop_first();
        assert(runs.drop_first() =~= rest.map_values(|pages: Seq<PartPage>| upload_sizes(pages)));
        assert forall|j: int| 0 <= j < rest.len() implies parts_listed(#[trigger] rest[j]) by {
            assert(rest[j] == parts[j + 1]);
        }
        lemma_page_sizes_not_negative(rest);
        lemma_total_concat(runs.first(), page_sizes(rest));
        assert(parts_listed(parts[0]));
        lemma_upload_sizes_not_negative(parts[0]);
    }
}

/// The parts of a listing add up to no less than nothing.
proof fn lemma_listing_sizes_not_negative(listing: Seq<ListedUploads>)
    requires
        forall|i: int, j: int|
            0 <= i < listing.len() && 0 <= j < listing[i].parts.len() ==> parts_listed(
                #[trigger] listing[i].parts[j],
            ),
    ensures
        total(listing_sizes(listing)) >= 0,
    decreases listing.len(),
{
    let runs = listing.map_values(|listed: ListedUploads| page_sizes(listed.parts));
    if listing.len() == 0 {
        assert(listing_sizes(listing) =~= Seq::<int>::empty());
    } else {
        let rest = listing.drop_first();
        assert(runs.drop_first() =~= rest.map_values(
            |listed: ListedUploads| page_sizes(listed.parts),
        ));
        assert forall|i: int, j: int|
            0 <= i < rest.len() && 0 <= j < rest[i].parts.len() implies parts_listed(
            #[trigger] rest[i].parts[j],
        ) by {
            assert(rest[i] == listing[i + 1]);
            assert(parts_listed(listing[i + 1].parts[j]));
        }
        lemma_listing_sizes_not_negative(rest);
        lemma_total_concat(runs.first(), listing_sizes(rest));
        assert forall|j: int| 0 <= j < listing[0].parts.len() implies parts_listed(
            #[trigger] listing[0].parts[j],
        ) by {}
        lemma_page_sizes_not_negative(listing[0].parts);
    }
}

/// Over the pages of one upload's parts, a walk counts every part and then
/// turns to the next upload of the page.
pub proof fn lemma_parts_of_an_upload(
    walk: SizingModel,
    pages: Seq<PartPage>,
    tail: Seq<Result<Response, String>>,
)
    requires
        walk.awaiting is Parts,
        0 <= walk.awaiting->at < walk.awaiting->uploads.len(),
        parts_listed(pages),
    ensures
        run(walk, part_responses(pages) + tail) == counted_then(
            walk.size + total(upload_sizes(pages)),
            |size: u64|
                to_upload(
                    SizingModel { size, ..walk },
                    walk.awaiting->uploads,
                    walk.awaiting->at + 1,
                    walk.awaiting->resume,
                ),
            tail,
        ),
    decreases pages.len(),
{
    let page = pages[0];
    let rest = pages.drop_first();
    let all = part_responses(pages) + tail;
    let runs = pages.map_values(|page: PartPage| reported_sizes(page.sizes@));
    assert(all[0] == Ok::<Response, String>(Response::Parts(page)));
    assert(all.drop_first() =~= part_responses(rest) + tail);
    assert(runs.drop_first() =~= rest.map_values(|page: PartPage| reported_sizes(page.sizes@)));
    lemma_total_concat(runs.first(), upload_sizes(rest));
    assert(listed_bytes(page.sizes@) is Ok);
    assert forall|i: int| 0 <= i < rest.len() implies listed_bytes(
        (#[trigger] rest[i]).sizes@,
    ) is Ok by {
        assert(rest[i] == pages[i + 1]);
    }
    lemma_upload_sizes_not_negative(rest);
    if pages.len() == 1 {
        assert(pages.last() == page);
        assert(upload_sizes(rest) =~= Seq::<int>::empty());
    } else {
        assert(goes_on(page.is_truncated));
        assert(rest.last() == pages.last());
        assert forall|i: int| 0 <= i < rest.len() - 1 implies goes_on(
            (#[trigger] rest[i]).is_truncated,
        ) by {
            assert(rest[i] == pages[i + 1]);
        }
        match stepped(walk, all[0]) {
            StepModel::Send(next, _) => {
                lemma_parts_of_an_upload(next, rest, tail);
            },
            _ => {},
        }
    }
}

/// Over the parts of the uploads of one page, from the upload that the walk
/// is at, a walk counts every part and then goes on as after the page.
pub proof fn lemma_uploads_of_a_page(
    walk: SizingModel,
    parts: Seq<Seq<PartPage>>,
    tail: Seq<Result<Response, String>>,
)
    requires
        walk.awaiting is Parts,
        0 <= walk.awaiting->at < walk.awaiting->uploads.len(),
        parts.len() == walk.awaiting->uploads.len() - walk.awaiting->at,
        forall|j: int| 0 <= j < parts.len() ==> parts_listed(#[trigger] parts[j]),
    ensures
        run(walk, page_responses(parts) + tail) == counted_then(
            walk.size + total(page_sizes(parts)),
            |size: u64| after_uploads(SizingModel { size, ..walk }, walk.awaiting->resume),
            tail,
        ),
    decreases parts.len(),
{
    let uploads = walk.awaiting->uploads;
    let at = walk.awaiting->at;
    let resume = walk.awaiting->resume;
    let first = parts[0];
    let rest = parts.drop_first();
    let scripts = parts.map_values(|pages: Seq<PartPage>| part_responses(pages));
    let runs = parts.map_values(|pages: Seq<PartPage>| upload_sizes(pages));
    assert(scripts.drop_first() =~= rest.map_values(|pages: Seq<PartPage>| part_responses(pages)));
    assert(runs.drop_first() =~= rest.map_values(|pages: Seq<PartPage>| upload_sizes(pages)));
    assert(page_responses(parts) + tail =~= part_responses(first) + (page_responses(rest) + tail));
    lemma_total_concat(runs.first(), page_sizes(rest));
    assert(parts_listed(first));
    assert forall|j: int| 0 <= j < rest.len() implies parts_listed(#[trigger] rest[j]) by {
        assert(rest[j] == parts[j + 1]);
    }
    lemma_upload_sizes_not_negative(first);
    lemma_page_sizes_not_negative(rest);
    lemma_parts_of_an_upload(walk, first, page_responses(rest) + tail);
    let counted = walk.size + total(upload_sizes(first));
    if counted <= u64::MAX {
        let onward = SizingModel { size: counted as u64, ..walk };
        if at + 1 < uploads.len() {
            let next = SizingModel {
                awaiting: AwaitingModel::Parts { uploads, at: at + 1, resume },
                ..onward
            };
            lemma_uploads_of_a_page(next, rest, tail);
        } else {
            assert(rest.len() == 0);
            assert(page_responses(rest) =~= Seq::<Result<Response, String>>::empty());
            assert(page_responses(rest) + tail =~= tail);
            assert(page_sizes(rest) =~= Seq::<int>::empty());
        }
    }
}

/// Over the pages of uploads and the parts of each upload, a walk counts
/// every part and then goes on as after the last page of uploads.
pub proof fn lemma_pages_of_uploads(
    walk: SizingModel,
    listing: Seq<ListedUploads>,
    tail: Seq<Result<Response, String>>,
)
    requires
        walk.awaiting == AwaitingModel::Uploads,
        uploads_listed(listing),
    ensures
        run(walk, upload_responses(listing) + tail) == counted_then(
            walk.size + total(listing_sizes(listing)),
            |size: u64| after_uploads(SizingModel { size, ..walk }, None),
            tail,
        ),
    decreases listing.len(),
{
    let first = listing[0];
    let rest = listing.drop_first();
    let listed = Ok::<Response, String>(Response::MultipartUploads(first.page));
    let scripts = listing.map_values(
        |listed: ListedUploads|
            seq![Ok::<Response, String>(Response::MultipartUploads(listed.page))] + page_responses(
                listed.parts,
            ),
    );
    let runs = listing.map_values(|listed: ListedUploads| page_sizes(listed.parts));
    assert(scripts.drop_first() =~= rest.map_values(
        |listed: ListedUploads|
            seq![Ok::<Response, String>(Response::MultipartUploads(listed.page))] + page_responses(
                listed.parts,
            ),
    ));
    assert(runs.drop_first() =~= rest.map_values(
        |listed: ListedUploads| page_sizes(listed.parts),
    ));
    let later = upload_responses(rest) + tail;
    let all = upload_responses(listing) + tail;
    assert(all =~= seq![listed] + (page_responses(first.parts) + later));
    assert(all[0] == listed);
    assert(all.drop_first() =~= page_responses(first.parts) + later);
    lemma_total_concat(runs.first(), listing_sizes(rest));
    assert forall|j: int| 0 <= j < first.parts.len() implies parts_listed(
        #[trigger] first.parts[j],
    ) by {
        assert(parts_listed(listing[0].parts[j]));
    }
    assert forall|i: int, j: int|
        0 <= i < rest.len() && 0 <= j < rest[i].parts.len() implies parts_listed(
        #[trigger] rest[i].parts[j],
    ) by {
        assert(rest[i] == listing[i + 1]);
        assert(parts_listed(listing[i + 1].parts[j]));
    }
    lemma_page_sizes_not_negative(first.parts);
    lemma_listing_sizes_not_negative(rest);
    let uploads = first.page.uploads.deep_view();
    let resume = markers_after(
        first.page.is_truncated,
        first.page.next_key_marker,
        first.page.next_upload_id_marker,
    ).deep_view();
    assert(uploads.len() == first.page.uploads@.len());
    assert(first.parts.len() == first.page.uploads@.len());
    assert(stepped(walk, listed) == to_upload(walk, uploads, 0, resume));
    // what the walk has counted once it is through with the page
    let counted = walk.size + total(page_sizes(first.parts));
    if uploads.len() > 0 {
        let listing_parts = SizingModel {
            awaiting: AwaitingModel::Parts { uploads, at: 0, resume },
            ..walk
        };
        lemma_uploads_of_a_page(listing_parts, first.parts, later);
    } else {
        assert(page_responses(first.parts) =~= Seq::<Result<Response, String>>::empty());
        assert(page_responses(first.parts) + later =~= later);
        assert(page_sizes(first.parts) =~= Seq::<int>::empty());
    }
    if counted <= u64::MAX {
        let onward = SizingModel { size: counted as u64, ..walk };
        if listing.len() == 1 {
            assert(listing.last() == first);
            assert(resume is None);
            assert(upload_responses(rest) =~= Seq::<Result<Response, String>>::empty());
            assert(later =~= tail);
            assert(listing_sizes(rest) =~= Seq::<int>::empty());
        } else {
            assert(goes_on(first.page.is_truncated));
            assert(resume is Some);
            assert(rest.last() == listing.last());
            assert forall|i: int| 0 <= i < rest.len() - 1 implies goes_on(
                (#[trigger] rest[i]).page.is_truncated,
            ) by {
                assert(rest[i] == listing[i + 1]);
            }
            assert forall|i: int| 0 <= i < rest.len() implies (#[trigger] rest[i]).parts.len()
                == rest[i].page.uploads@.len() by {
                assert(rest[i] == listing[i + 1]);
            }
            let next = SizingModel { awaiting: AwaitingModel::Uploads, ..onward };
            lemma_pages_of_uploads(next, rest, tail);
        }
    }
}

/// Over the multipart uploads of a bucket as the service lists them, page
/// by page and upload by upload, a walk that starts at nothing and counts
/// nothing else ends with the sum of the sizes of all parts of all uploads.
/// An upload without parts adds nothing, and neither does a page without
/// uploads.
pub proof fn lemma_every_part_is_counted(walk: SizingModel, listing: Seq<ListedUploads>)
    requires
        walk.awaiting == AwaitingModel::Uploads,
        walk.size == 0,
        !walk.versions_follow,
        uploads_listed(listing),
    ensures
        run(walk, upload_responses(listing)) == summed(listing_sizes(listing)),
{
    lemma_pages_of_uploads(walk, listing, Seq::empty());
    assert(upload_responses(listing) + Seq::<Result<Response, String>>::empty()
        =~= upload_responses(listing));
    lemma_listing_sizes_not_negative(listing);
}

/// Where every version is asked for together with the multipart uploads,
/// the size is the sum of both: of the parts of all uploads, which the walk
/// lists first, and of all versions, which it lists after them.
pub proof fn lemma_combined_is_the_sum_of_both(
    walk: SizingModel,
    listing: Seq<ListedUploads>,
    pages: Seq<VersionPage>,
)
    requires
        walk.awaiting == AwaitingModel::Uploads,
        walk.size == 0,
        walk.versions_follow,
        uploads_listed(listing),
        pages.len() > 0,
        !goes_on(pages.last().is_truncated),
        forall|i: int| 0 <= i < pages.len() - 1 ==> goes_on((#[trigger] pages[i]).is_truncated),
        forall|i: int|
            0 <= i < pages.len() ==> version_bytes(walk.selector, #[trigger] pages[i]) is Ok,
    ensures
        run(walk, upload_responses(listing) + version_responses(pages)) == summed(
            listing_sizes(listing) + all_version_sizes(walk.selector, pages),
        ),
{
    let parts = total(listing_sizes(listing));
    let versions = all_version_sizes(walk.selector, pages);
    lemma_pages_of_uploads(walk, listing, version_responses(pages));
    lemma_listing_sizes_not_negative(listing);
    lemma_total_concat(listing_sizes(listing), versions);
    // the versions add up to no less than nothing
    let runs = pages.map_values(|page: VersionPage| counted_sizes(walk.selector, page.versions@));
    lemma_total_flatten(runs);
    lemma_sums_not_negative(runs);
    if parts <= u64::MAX {
        let next = SizingModel {
            versions_follow: false,
            awaiting: AwaitingModel::Versions,
            size: parts as u64,
            ..walk
        };
        lemma_every_version_is_counted(next, pages);
    }
}

/// Runs of amounts that each add up to no less than nothing add up to no
/// less than nothing.
proof fn lemma_sums_not_negative(runs: Seq<Seq<int>>)
    requires
        forall|i: int| 0 <= i < runs.len() ==> total(#[trigger] runs[i]) >= 0,
    ensures
        total(runs.map_values(|amounts: Seq<int>| total(amounts))) >= 0,
    decreases runs.len(),
{
    let sums = runs.map_values(|amounts: Seq<int>| total(amounts));
    if runs.len() > 0 {
        let front = runs.drop_last();
        assert(sums.drop_last() =~= front.map_values(|amounts: Seq<int>| total(amounts)));
        assert forall|i: int| 0 <= i < front.len() implies total(#[trigger] front[i]) >= 0 by {
            assert(front[i] == runs[i]);
        }
        lemma_sums_not_negative(front);
        assert(total(runs[runs.len() - 1]) >= 0);
    }
}

} // verus!

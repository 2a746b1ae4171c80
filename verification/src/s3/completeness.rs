//! What a sizing walk comes to over a whole listing.
use crate::common::error::{Error, ErrorModel};
use crate::common::object_versions::ObjectVersions;
use crate::common::pager::{lemma_walk_is_complete, page_bytes, walked, Glance};
use crate::common::tally::{lemma_total_concat, lemma_total_push, reported_sizes, total};
use crate::common::text::chars_of;
use crate::s3::client::{
    listed_bytes, stepped, version_bytes, AwaitingModel, RequestModel, Response, SizingModel,
    StepModel,
};
use crate::s3::listing::{counted_sizes, goes_on, ObjectPage, VersionPage};
use vstd::prelude::*;

verus! {

/// How a walk ends when its requests are answered with `responses`, one
/// after the other. `None`: the walk still waits for a response when they
/// are used up.
pub open spec fn run(walk: SizingModel, responses: Seq<Result<Response, String>>) -> Option<
    Result<u64, ErrorModel>,
>
    decreases responses.len(),
{
    if responses.len() == 0 {
        None
    } else {
        match stepped(walk, responses[0]) {
            StepModel::Send(next, _) => run(next, responses.drop_first()),
            StepModel::Done(size) => Some(Ok(size)),
            StepModel::Failed(error) => Some(Err(error)),
        }
    }
}

/// The result of a walk, with its error as a model.
pub open spec fn modelled(result: Option<Result<u64, Error>>) -> Option<Result<u64, ErrorModel>> {
    match result {
        Some(Ok(size)) => Some(Ok(size)),
        Some(Err(error)) => Some(Err(error.deep_view())),
        None => None,
    }
}

/// The sum of `amounts` on top of `size`, as a walk hands it out: the sum
/// itself, or an overflow where the total cannot hold it.
pub open spec fn summed_onto(size: u64, amounts: Seq<int>) -> Option<Result<u64, ErrorModel>> {
    if size + total(amounts) > u64::MAX {
        Some(Err(ErrorModel::SizeOverflow))
    } else {
        Some(Ok((size + total(amounts)) as u64))
    }
}

/// The sum of `amounts`, as a walk that started at nothing hands it out.
pub open spec fn summed(amounts: Seq<int>) -> Option<Result<u64, ErrorModel>> {
    summed_onto(0, amounts)
}

/// The pages of current objects as the responses that bring them.
pub open spec fn object_responses(pages: Seq<ObjectPage>) -> Seq<Result<Response, String>> {
    pages.map_values(|page: ObjectPage| Ok::<Response, String>(Response::Objects(page)))
}

/// What a walk sees of each page of current objects.
pub open spec fn object_glances(pages: Seq<ObjectPage>) -> Seq<Glance> {
    pages.map_values(
        |page: ObjectPage|
            Glance { bytes: listed_bytes(page.sizes@), more: goes_on(page.is_truncated) },
    )
}

/// What every object of every page adds to a sum, page after page.
pub open spec fn all_object_sizes(pages: Seq<ObjectPage>) -> Seq<int> {
    pages.map_values(|page: ObjectPage| reported_sizes(page.sizes@)).flatten()
}

/// The pages of versions as the responses that bring them.
pub open spec fn version_responses(pages: Seq<VersionPage>) -> Seq<Result<Response, String>> {
    pages.map_values(|page: VersionPage| Ok::<Response, String>(Response::ObjectVersions(page)))
}

/// What a walk sees of each page of versions under a selection.
pub open spec fn version_glances(selector: ObjectVersions, pages: Seq<VersionPage>) -> Seq<Glance> {
    pages.map_values(
        |page: VersionPage|
            Glance { bytes: version_bytes(selector, page), more: goes_on(page.is_truncated) },
    )
}

/// What every version of every page adds to a sum under a selection, page
/// after page.
pub open spec fn all_version_sizes(selector: ObjectVersions, pages: Seq<VersionPage>) -> Seq<int> {
    pages.map_values(|page: VersionPage| counted_sizes(selector, page.versions@)).flatten()
}

/// The sum of sequences laid end to end is the sum of their sums.
pub proof fn lemma_total_flatten(runs: Seq<Seq<int>>)
    ensures
        total(runs.flatten()) == total(runs.map_values(|amounts: Seq<int>| total(amounts))),
    decreases runs.len(),
{
    let sums = runs.map_values(|amounts: Seq<int>| total(amounts));
    if runs.len() == 0 {
        assert(runs.flatten() =~= Seq::<int>::empty());
    } else {
        let rest = runs.drop_first();
        lemma_total_flatten(rest);
        lemma_total_concat(runs.first(), rest.flatten());
        assert(sums =~= seq![total(runs.first())] + rest.map_values(
            |amounts: Seq<int>| total(amounts),
        ));
        lemma_total_concat(
            seq![total(runs.first())],
            rest.map_values(|amounts: Seq<int>| total(amounts)),
        );
        lemma_total_push(Seq::<int>::empty(), total(runs.first()));
        assert(Seq::<int>::empty().push(total(runs.first())) =~= seq![total(runs.first())]);
    }
}

/// A walk through the current objects is a walk as the pager describes it.
pub proof fn lemma_objects_walk(walk: SizingModel, pages: Seq<ObjectPage>)
    requires
        walk.awaiting == AwaitingModel::Objects,
    ensures
        run(walk, object_responses(pages)) == modelled(walked(walk.size, object_glances(pages))),
    decreases pages.len(),
{
    if pages.len() > 0 {
        let page = pages[0];
        let rest = pages.drop_first();
        assert(object_responses(pages).drop_first() =~= object_responses(rest));
        assert(object_glances(pages).drop_first() =~= object_glances(rest));
        assert(object_responses(pages)[0] == Ok::<Response, String>(Response::Objects(page)));
        match stepped(walk, object_responses(pages)[0]) {
            StepModel::Send(next, _) => {
                lemma_objects_walk(next, rest);
            },
            _ => {},
        }
    }
}

/// A walk through the versions is a walk as the pager describes it.
pub proof fn lemma_versions_walk(walk: SizingModel, pages: Seq<VersionPage>)
    requires
        walk.awaiting == AwaitingModel::Versions,
    ensures
        run(walk, version_responses(pages)) == modelled(
            walked(walk.size, version_glances(walk.selector, pages)),
        ),
    decreases pages.len(),
{
    if pages.len() > 0 {
        let page = pages[0];
        let rest = pages.drop_first();
        assert(version_responses(pages).drop_first() =~= version_responses(rest));
        assert(version_glances(walk.selector, pages).drop_first() =~= version_glances(
            walk.selector,
            rest,
        ));
        assert(version_responses(pages)[0] == Ok::<Response, String>(
            Response::ObjectVersions(page),
        ));
        match stepped(walk, version_responses(pages)[0]) {
            StepModel::Send(next, _) => {
                lemma_versions_walk(next, rest);
            },
            _ => {},
        }
    }
}

/// Over pages of current objects of which each but the last is cut short,
/// be they one or many, a walk counts every object of every page: it ends
/// with the sum of the sizes of all the pages laid end to end, on top of
/// what it had counted, provided that each page can be counted by itself.
pub proof fn lemma_every_object_is_counted(walk: SizingModel, pages: Seq<ObjectPage>)
    requires
        walk.awaiting == AwaitingModel::Objects,
        pages.len() > 0,
        !goes_on(pages.last().is_truncated),
        forall|i: int| 0 <= i < pages.len() - 1 ==> goes_on((#[trigger] pages[i]).is_truncated),
        forall|i: int| 0 <= i < pages.len() ==> listed_bytes((#[trigger] pages[i]).sizes@) is Ok,
    ensures
        run(walk, object_responses(pages)) == summed_onto(walk.size, all_object_sizes(pages)),
{
    let glances = object_glances(pages);
    let runs = pages.map_values(|page: ObjectPage| reported_sizes(page.sizes@));
    lemma_objects_walk(walk, pages);
    assert(glances.last() == glances[pages.len() - 1]);
    assert forall|i: int| 0 <= i < glances.len() - 1 implies (#[trigger] glances[i]).more by {
        assert(goes_on(pages[i].is_truncated));
    }
    assert forall|i: int| 0 <= i < glances.len() implies (#[trigger] glances[i]).bytes is Ok by {
        assert(listed_bytes(pages[i].sizes@) is Ok);
    }
    lemma_walk_is_complete(walk.size, glances);
    lemma_total_flatten(runs);
    assert(page_bytes(glances) =~= runs.map_values(|amounts: Seq<int>| total(amounts))) by {
        assert forall|i: int| 0 <= i < pages.len() implies page_bytes(glances)[i] == total(
            runs[i],
        ) by {
            assert(listed_bytes(pages[i].sizes@) is Ok);
        }
    }
}

/// Over pages of versions of which each but the last is cut short, be they
/// one or many, a walk counts every version that its selection names: it
/// ends with the sum of what the versions of all the pages, laid end to
/// end, add under the selection, on top of what it had counted, provided
/// that each page can be counted by itself.
pub proof fn lemma_every_version_is_counted(walk: SizingModel, pages: Seq<VersionPage>)
    requires
        walk.awaiting == AwaitingModel::Versions,
        pages.len() > 0,
        !goes_on(pages.last().is_truncated),
        forall|i: int| 0 <= i < pages.len() - 1 ==> goes_on((#[trigger] pages[i]).is_truncated),
        forall|i: int|
            0 <= i < pages.len() ==> version_bytes(walk.selector, #[trigger] pages[i]) is Ok,
    ensures
        run(walk, version_responses(pages)) == summed_onto(
            walk.size,
            all_version_sizes(walk.selector, pages),
        ),
{
    let selector = walk.selector;
    let glances = version_glances(selector, pages);
    let runs = pages.map_values(|page: VersionPage| counted_sizes(selector, page.versions@));
    lemma_versions_walk(walk, pages);
    assert(glances.last() == glances[pages.len() - 1]);
    assert forall|i: int| 0 <= i < glances.len() - 1 implies (#[trigger] glances[i]).more by {
        assert(goes_on(pages[i].is_truncated));
    }
    assert forall|i: int| 0 <= i < glances.len() implies (#[trigger] glances[i]).bytes is Ok by {
        assert(version_bytes(selector, pages[i]) is Ok);
    }
    lemma_walk_is_complete(walk.size, glances);
    lemma_total_flatten(runs);
    assert(page_bytes(glances) =~= runs.map_values(|amounts: Seq<int>| total(amounts))) by {
        assert forall|i: int| 0 <= i < pages.len() implies page_bytes(glances)[i] == total(
            runs[i],
        ) by {
            assert(version_bytes(selector, pages[i]) is Ok);
        }
    }
}

/// A page without objects that is cut short does not end the walk: the walk
/// asks for the page at the token and has counted what it had.
pub proof fn lemma_empty_object_page_is_passed(walk: SizingModel, page: ObjectPage)
    requires
        walk.awaiting == AwaitingModel::Objects,
        page.sizes@.len() == 0,
        goes_on(page.is_truncated),
    ensures
        stepped(walk, Ok(Response::Objects(page))) == StepModel::Send(
            walk,
            RequestModel::ListObjects {
                continuation_token: chars_of(page.next_continuation_token),
            },
        ),
{
    assert(reported_sizes(page.sizes@) =~= Seq::<int>::empty());
}

/// A page without versions that is cut short does not end the walk: the
/// walk asks for the page at the markers and has counted what it had.
pub proof fn lemma_empty_version_page_is_passed(walk: SizingModel, page: VersionPage)
    requires
        walk.awaiting == AwaitingModel::Versions,
        page.versions@.len() == 0,
        goes_on(page.is_truncated),
    ensures
        stepped(walk, Ok(Response::ObjectVersions(page))) == StepModel::Send(
            walk,
            RequestModel::ListObjectVersions {
                key_marker: chars_of(page.next_key_marker),
                version_id_marker: chars_of(page.next_version_id_marker),
            },
        ),
{
    assert(counted_sizes(walk.selector, page.versions@) =~= Seq::<int>::empty());
}

} // verus!

//! What a walk through the metric catalog comes to over all its pages.
use crate::cloudwatch::bucket_metrics::Metric;
use crate::cloudwatch::client::{Client, MetricsPage, MetricsStepModel};
use crate::common::error::ErrorModel;
use crate::common::pager::{all_items, gathered, lemma_gathering_is_complete};
use crate::common::text::chars_of;
use vstd::prelude::*;

verus! {

/// How a walk that has gathered `found` ends when its requests are
/// answered with `responses`, one after the other. `None`: the walk still
/// waits for a response when they are used up.
pub open spec fn metrics_run(
    client: Client,
    found: Seq<Metric>,
    responses: Seq<Result<MetricsPage, String>>,
) -> Option<Result<Seq<Metric>, ErrorModel>>
    decreases responses.len(),
{
    if responses.len() == 0 {
        None
    } else {
        match client.metrics_stepped(found, responses[0]) {
            MetricsStepModel::Fetch(more, _) => metrics_run(client, more, responses.drop_first()),
            MetricsStepModel::Done(metrics) => Some(Ok(metrics)),
            MetricsStepModel::Failed(error) => Some(Err(error)),
        }
    }
}

/// The pages of the catalog as the responses that bring them.
pub open spec fn catalog_responses(pages: Seq<MetricsPage>) -> Seq<Result<MetricsPage, String>> {
    pages.map_values(|page: MetricsPage| Ok::<MetricsPage, String>(page))
}

/// What a walk sees of each page of the catalog: its metrics, and whether
/// it names a next token.
pub open spec fn catalog_glances(pages: Seq<MetricsPage>) -> Seq<(Seq<Metric>, bool)> {
    pages.map_values(|page: MetricsPage| (page.metrics@, page.next_token is Some))
}

/// A walk through the catalog is a walk as the pager describes it.
pub proof fn lemma_catalog_walk(client: Client, found: Seq<Metric>, pages: Seq<MetricsPage>)
    ensures
        metrics_run(client, found, catalog_responses(pages)) == match gathered(
            catalog_glances(pages),
        ) {
            Some(metrics) => Some(Ok::<Seq<Metric>, ErrorModel>(found + metrics)),
            None => None,
        },
    decreases pages.len(),
{
    if pages.len() > 0 {
        let page = pages[0];
        let rest = pages.drop_first();
        assert(catalog_responses(pages).drop_first() =~= catalog_responses(rest));
        assert(catalog_glances(pages).drop_first() =~= catalog_glances(rest));
        assert(catalog_responses(pages)[0] == Ok::<MetricsPage, String>(page));
        lemma_catalog_walk(client, found + page.metrics@, rest);
        match gathered(catalog_glances(rest)) {
            Some(metrics) => {
                assert((found + page.metrics@) + metrics =~= found + (page.metrics@ + metrics));
            },
            None => {},
        }
    }
}

/// Over pages of which each but the last names a next token, be they one or
/// many, a walk through the catalog gathers the metrics of every page, in
/// the order they came.
pub proof fn lemma_every_metric_is_gathered(client: Client, pages: Seq<MetricsPage>)
    requires
        pages.len() > 0,
        pages.last().next_token is None,
        forall|i: int| 0 <= i < pages.len() - 1 ==> (#[trigger] pages[i]).next_token is Some,
    ensures
        metrics_run(client, Seq::empty(), catalog_responses(pages)) == Some(
            Ok::<Seq<Metric>, ErrorModel>(all_items(catalog_glances(pages))),
        ),
{
    let glances = catalog_glances(pages);
    lemma_catalog_walk(client, Seq::empty(), pages);
    assert(glances.last() == glances[pages.len() - 1]);
    assert forall|i: int| 0 <= i < glances.len() - 1 implies (#[trigger] glances[i]).1 by {
        assert(pages[i].next_token is Some);
    }
    lemma_gathering_is_complete(glances);
    assert(Seq::<Metric>::empty() + all_items(glances) =~= all_items(glances));
}

/// A page without metrics that names a next token does not end the walk:
/// the walk asks for the page at the token and has gathered what it had.
pub proof fn lemma_empty_catalog_page_is_passed(
    client: Client,
    found: Seq<Metric>,
    page: MetricsPage,
)
    requires
        page.metrics@.len() == 0,
        page.next_token is Some,
    ensures
        client.metrics_stepped(found, Ok(page)) == MetricsStepModel::Fetch(
            found,
            client.metrics_request(chars_of(page.next_token)),
        ),
{
    assert(found + page.metrics@ =~= found);
}

} // verus!

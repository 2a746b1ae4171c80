//! Walking a listing that the provider hands out page by page.
//!
//! A walk asks for the first page without a cursor and for each further page
//! with the cursor that the page before it named. It ends with the first page
//! that names none, however few items that page or any page before it holds.
//! A page that cannot be counted ends the walk with its error, and nothing
//! counted up to then is handed out.
use crate::common::error::Error;
use crate::common::tally::{grow, grown, lemma_total_concat, lemma_total_push, total};
use vstd::prelude::*;

verus! {

/// What a walk that adds up sizes does after a page.
#[derive(Debug, Clone, PartialEq, Eq)]
pub enum Turn<C> {
    /// Ask for the page at the cursor; the size is what was counted so far.
    Fetch(u64, C),
    /// The listing is at its end, and this is its size.
    Done(u64),
    /// The walk has failed.
    Failed(Error),
}

/// What a walk sees of a page: the bytes it adds, and whether it names a
/// further page.
pub struct Glance {
    pub bytes: Result<u64, Error>,
    pub more: bool,
}

/// What a walk that has counted `size` does after a page that adds `bytes`
/// and names `next`.
pub open spec fn turned<C>(size: u64, bytes: Result<u64, Error>, next: Option<C>) -> Turn<C> {
    match bytes {
        Err(error) => Turn::Failed(error),
        Ok(bytes) => match grown(size, bytes) {
            Err(error) => Turn::Failed(error),
            Ok(sum) => match next {
                Some(cursor) => Turn::Fetch(sum, cursor),
                None => Turn::Done(sum),
            },
        },
    }
}

/// How a walk that has counted `size` ends on `pages`, the pages the
/// provider would hand out one after the other. `None`: the last of `pages`
/// names a further page, so the walk is not at its end.
pub open spec fn walked(size: u64, pages: Seq<Glance>) -> Option<Result<u64, Error>>
    decreases pages.len(),
{
    if pages.len() == 0 {
        None
    } else {
        match turned(size, pages[0].bytes, if pages[0].more { Some(()) } else { None }) {
            Turn::Failed(error) => Some(Err(error)),
            Turn::Done(sum) => Some(Ok(sum)),
            Turn::Fetch(sum, _) => walked(sum, pages.drop_first()),
        }
    }
}

/// Each of `pages` but the last names a further page, and the last names none.
pub open spec fn chained(pages: Seq<Glance>) -> bool {
    &&& pages.len() > 0
    &&& !pages.last().more
    &&& forall|i: int| 0 <= i < pages.len() - 1 ==> (#[trigger] pages[i]).more
}

/// The bytes that each of `pages` adds, where every page can be counted.
pub open spec fn page_bytes(pages: Seq<Glance>) -> Seq<int> {
    pages.map_values(
        |page: Glance|
            match page.bytes {
                Ok(bytes) => bytes as int,
                Err(_) => 0,
            },
    )
}

/// Every one of `pages` can be counted.
pub open spec fn countable(pages: Seq<Glance>) -> bool {
    forall|i: int| 0 <= i < pages.len() ==> (#[trigger] pages[i]).bytes is Ok
}

/// Decides what a walk does after a page.
pub fn turn<C>(size: u64, bytes: Result<u64, Error>, next: Option<C>) -> (turn: Turn<C>)
    ensures
        turn == turned(size, bytes, next),
{
    match bytes {
        Err(error) => Turn::Failed(error),
        Ok(bytes) => match grow(size, bytes) {
            Err(error) => Turn::Failed(error),
            Ok(sum) => match next {
                Some(cursor) => Turn::Fetch(sum, cursor),
                None => Turn::Done(sum),
            },
        },
    }
}

/// A walk over pages that can all be counted, each naming the next and the
/// last naming none, reads every page: its result is the sum of what all the
/// pages add, on top of what was counted before, or an overflow where the
/// total cannot hold that. This holds for one page as for many.
pub proof fn lemma_walk_is_complete(size: u64, pages: Seq<Glance>)
    requires
        chained(pages),
        countable(pages),
    ensures
        walked(size, pages) == Some(
            if size + total(page_bytes(pages)) > u64::MAX {
                Err::<u64, Error>(Error::SizeOverflow)
            } else {
                Ok::<u64, Error>((size + total(page_bytes(pages))) as u64)
            },
        ),
    decreases pages.len(),
{
    let first = pages[0];
    let rest = pages.drop_first();
    let amounts = page_bytes(pages);
    assert(amounts =~= seq![amounts[0]] + page_bytes(rest));
    lemma_total_concat(seq![amounts[0]], page_bytes(rest));
    lemma_total_push(Seq::<int>::empty(), amounts[0]);
    assert(Seq::<int>::empty().push(amounts[0]) =~= seq![amounts[0]]);
    assert(total(Seq::<int>::empty()) == 0);
    lemma_page_bytes_not_negative(rest);
    if pages.len() == 1 {
        assert(rest.len() == 0);
        assert(pages.last() == first);
    } else {
        assert(first.more);
        assert(rest.last() == pages.last());
        assert forall|i: int| 0 <= i < rest.len() - 1 implies (#[trigger] rest[i]).more by {
            assert(rest[i] == pages[i + 1]);
        }
        assert forall|i: int| 0 <= i < rest.len() implies (#[trigger] rest[i]).bytes is Ok by {
            assert(rest[i] == pages[i + 1]);
        }
        match grown(size, first.bytes->Ok_0) {
            Ok(sum) => {
                lemma_walk_is_complete(sum, rest);
            },
            Err(_) => {},
        }
    }
}

/// No page adds less than nothing.
pub proof fn lemma_page_bytes_not_negative(pages: Seq<Glance>)
    ensures
        total(page_bytes(pages)) >= 0,
    decreases pages.len(),
{
    if pages.len() > 0 {
        lemma_page_bytes_not_negative(pages.drop_last());
        assert(page_bytes(pages).drop_last() =~= page_bytes(pages.drop_last()));
    }
}

/// A page that holds nothing and names a further page does not end a walk:
/// the walk goes on to the pages after it as if it had started there.
pub proof fn lemma_empty_page_is_passed(size: u64, pages: Seq<Glance>)
    requires
        pages.len() > 0,
        pages[0].bytes == Ok::<u64, Error>(0),
        pages[0].more,
    ensures
        walked(size, pages) == walked(size, pages.drop_first()),
{
}

/// What a walk that gathers items has after `pages`, each given as its items
/// and whether it names a further page: the items of every page up to the
/// first that names none, in the order they came. `None`: the last of
/// `pages` names a further page.
pub open spec fn gathered<T>(pages: Seq<(Seq<T>, bool)>) -> Option<Seq<T>>
    decreases pages.len(),
{
    if pages.len() == 0 {
        None
    } else if !pages[0].1 {
        Some(pages[0].0)
    } else {
        match gathered(pages.drop_first()) {
            Some(rest) => Some(pages[0].0 + rest),
            None => None,
        }
    }
}

/// The items of all of `pages`, one page after the other.
pub open spec fn all_items<T>(pages: Seq<(Seq<T>, bool)>) -> Seq<T> {
    pages.map_values(|page: (Seq<T>, bool)| page.0).flatten()
}

/// A walk over pages of which each names the next and the last names none
/// gathers the items of all of them, in order, whether the pages are one or
/// many.
pub proof fn lemma_gathering_is_complete<T>(pages: Seq<(Seq<T>, bool)>)
    requires
        pages.len() > 0,
        !pages.last().1,
        forall|i: int| 0 <= i < pages.len() - 1 ==> (#[trigger] pages[i]).1,
    ensures
        gathered(pages) == Some(all_items(pages)),
    decreases pages.len(),
{
    let items = pages.map_values(|page: (Seq<T>, bool)| page.0);
    let rest = pages.drop_first();
    assert(items.drop_first() =~= rest.map_values(|page: (Seq<T>, bool)| page.0));
    if pages.len() == 1 {
        assert(pages.last() == pages[0]);
        assert(items.drop_first().flatten() =~= Seq::<T>::empty());
        assert(all_items(pages) =~= pages[0].0);
    } else {
        assert(pages[0].1);
        assert(rest.last() == pages.last());
        assert forall|i: int| 0 <= i < rest.len() - 1 implies (#[trigger] rest[i]).1 by {
            assert(rest[i] == pages[i + 1]);
        }
        lemma_gathering_is_complete(rest);
    }
}

/// A page without items that names a further page does not end a walk that
/// gathers, and adds nothing to what it gathers.
pub proof fn lemma_empty_page_is_skipped<T>(pages: Seq<(Seq<T>, bool)>)
    requires
        pages.len() > 0,
        pages[0].0.len() == 0,
        pages[0].1,
    ensures
        gathered(pages) == gathered(pages.drop_first()),
{
    match gathered(pages.drop_first()) {
        Some(rest) => {
            assert(pages[0].0 + rest =~= rest);
        },
        None => {},
    }
}

} // verus!

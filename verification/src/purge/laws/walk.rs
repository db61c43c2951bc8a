//! What holds of every walk through a stream, proved from the definition
//! of the paginator.

use crate::purge::item::{items_in, of_kind, ContentKind, ItemView, PageView};
use crate::purge::paginator::PaginatorView;
use crate::reddit::ListingControlView;
use vstd::prelude::*;

verus! {

/// The paginator after it was handed `pages`, one after the other.
pub open spec fn walk(start: PaginatorView, pages: Seq<PageView>) -> PaginatorView
    decreases pages.len(),
{
    if pages.len() == 0 {
        start
    } else {
        walk(start, pages.drop_last()).accept(pages.last())
    }
}

/// The stream that a paginator handed `pages` has yielded: the items of
/// each page, one page after the other.
pub open spec fn stream_of(start: PaginatorView, pages: Seq<PageView>) -> Seq<ItemView>
    decreases pages.len(),
{
    if pages.len() == 0 {
        Seq::empty()
    } else {
        stream_of(start, pages.drop_last()) + walk(start, pages.drop_last()).yielded(pages.last())
    }
}

/// The number of requests that `pages` answered: a page answers one where
/// it reaches a paginator whose stream has not ended.
pub open spec fn calls(start: PaginatorView, pages: Seq<PageView>) -> nat
    decreases pages.len(),
{
    if pages.len() == 0 {
        0
    } else if walk(start, pages.drop_last()).finished {
        calls(start, pages.drop_last())
    } else {
        calls(start, pages.drop_last()) + 1
    }
}

/// Each of `pages` as the answer to a request.
pub open spec fn answers(pages: Seq<Seq<Option<ItemView>>>) -> Seq<PageView> {
    pages.map_values(|page: Seq<Option<ItemView>>| PageView::Entries(page))
}

/// The items of the stream `kind` in each of `pages`, page by page.
pub open spec fn items_by_page(kind: ContentKind, pages: Seq<Seq<Option<ItemView>>>) -> Seq<
    Seq<ItemView>,
> {
    pages.map_values(|page: Seq<Option<ItemView>>| items_in(kind, page))
}

/// Whether `page` is full and ends in an item of the stream `kind`, so that
/// a walk goes on after it.
pub open spec fn goes_on(kind: ContentKind, limit: u32, page: Seq<Option<ItemView>>) -> bool {
    page.len() == limit && page.len() > 0 && of_kind(kind)(page.last()) is Some
}

/// Whether every element of `page` is an item of the stream `kind`.
pub open spec fn all_items(kind: ContentKind, page: Seq<Option<ItemView>>) -> bool {
    forall|j: int|
        0 <= j < page.len() ==> (#[trigger] of_kind(kind)(page[j])) == page[j] && page[j] is Some
}

/// A walk through full pages goes on, has asked once for each page, and
/// has yielded the items of each.
proof fn lemma_walk_goes_on(kind: ContentKind, limit: u32, pages: Seq<Seq<Option<ItemView>>>)
    requires
        forall|i: int| 0 <= i < pages.len() ==> goes_on(kind, limit, #[trigger] pages[i]),
    ensures
        !walk(PaginatorView::fresh(kind, limit), answers(pages)).finished,
        walk(PaginatorView::fresh(kind, limit), answers(pages)).kind == kind,
        walk(PaginatorView::fresh(kind, limit), answers(pages)).limit == limit,
        calls(PaginatorView::fresh(kind, limit), answers(pages)) == pages.len(),
        stream_of(PaginatorView::fresh(kind, limit), answers(pages)) == items_by_page(
            kind,
            pages,
        ).flatten(),
        pages.flatten().len() == pages.len() * limit,
    decreases pages.len(),
{
    let start = PaginatorView::fresh(kind, limit);
    if pages.len() == 0 {
        assert(items_by_page(kind, pages) =~= Seq::<Seq<ItemView>>::empty());
    } else {
        let before = pages.drop_last();
        lemma_walk_goes_on(kind, limit, before);
        assert(answers(pages).drop_last() =~= answers(before));
        assert(answers(pages).last() == PageView::Entries(pages.last()));
        assert(goes_on(kind, limit, pages[pages.len() - 1]));
        assert(items_by_page(kind, pages) =~= items_by_page(kind, before).push(
            items_in(kind, pages.last()),
        ));
        items_by_page(kind, before).lemma_flatten_push(items_in(kind, pages.last()));
        assert(pages =~= before.push(pages.last()));
        before.lemma_flatten_push(pages.last());
        assert(pages.len() * limit == before.len() * limit + limit) by (nonlinear_arith)
            requires
                pages.len() == before.len() + 1,
        ;
    }
}

/// The items among elements that are all items are those elements.
proof fn lemma_all_items(kind: ContentKind, page: Seq<Option<ItemView>>)
    requires
        all_items(kind, page),
    ensures
        items_in(kind, page) == page.map_values(|entry: Option<ItemView>| entry.unwrap()),
    decreases page.len(),
{
    let unwrapped = page.map_values(|entry: Option<ItemView>| entry.unwrap());
    if page.len() == 0 {
        assert(items_in(kind, page) =~= unwrapped);
    } else {
        let before = page.drop_last();
        assert forall|j: int| 0 <= j < before.len() implies (#[trigger] of_kind(kind)(before[j]))
            == before[j] && before[j] is Some by {
            assert(before[j] == page[j]);
        }
        lemma_all_items(kind, before);
        assert(of_kind(kind)(page[page.len() - 1]) == page[page.len() - 1]);
        assert(items_in(kind, page) =~= unwrapped);
    }
}

/// Pagination termination. Take pages that are all full but the last,
/// which is shorter, each full page ending in an item of the stream. A
/// walk from the start of the stream then ends with the last page and not
/// before, has asked exactly once for each page, and has yielded the items
/// of all pages in order. With `total` elements in all, that is
/// `total / limit + 1` requests, which is `total / limit` rounded up
/// unless the last page is empty. Where every element is an item of the
/// stream, what was yielded is every element of every page.
pub proof fn law_pagination_terminates(
    kind: ContentKind,
    limit: u32,
    pages: Seq<Seq<Option<ItemView>>>,
)
    requires
        pages.len() > 0,
        forall|i: int| 0 <= i < pages.len() - 1 ==> goes_on(kind, limit, #[trigger] pages[i]),
        pages.last().len() < limit,
    ensures
        walk(PaginatorView::fresh(kind, limit), answers(pages)).finished,
        walk(PaginatorView::fresh(kind, limit), answers(pages)).request() is None,
        forall|n: int|
            0 <= n < pages.len() ==> !(#[trigger] walk(
                PaginatorView::fresh(kind, limit),
                answers(pages.take(n)),
            )).finished,
        calls(PaginatorView::fresh(kind, limit), answers(pages)) == pages.len(),
        stream_of(PaginatorView::fresh(kind, limit), answers(pages)) == items_by_page(
            kind,
            pages,
        ).flatten(),
        pages.len() == pages.flatten().len() / (limit as nat) + 1,
        pages.last().len() > 0 ==> pages.len() == (pages.flatten().len() + limit - 1) / (
        limit as int),
        (forall|i: int| 0 <= i < pages.len() ==> all_items(kind, #[trigger] pages[i]))
            ==> stream_of(PaginatorView::fresh(kind, limit), answers(pages))
            == pages.flatten().map_values(|entry: Option<ItemView>| entry.unwrap()),
{
    let start = PaginatorView::fresh(kind, limit);
    let before = pages.drop_last();
    let short = pages.last();
    lemma_walk_goes_on(kind, limit, before);
    assert(answers(pages).drop_last() =~= answers(before));
    assert(answers(pages).last() == PageView::Entries(short));
    assert forall|n: int| 0 <= n < pages.len() implies !(#[trigger] walk(
        start,
        answers(pages.take(n)),
    )).finished by {
        lemma_walk_goes_on(kind, limit, pages.take(n));
    }
    assert(items_by_page(kind, pages) =~= items_by_page(kind, before).push(items_in(kind, short)));
    items_by_page(kind, before).lemma_flatten_push(items_in(kind, short));
    assert(pages =~= before.push(short));
    before.lemma_flatten_push(short);
    let full = before.len();
    let size = limit as int;
    let rest = short.len() as int;
    assert((full * size + rest) / size == full && (rest > 0 ==> (full * size + rest + size - 1)
        / size == full + 1)) by (nonlinear_arith)
        requires
            0 <= rest < size,
            0 <= full,
    ;
    if forall|i: int| 0 <= i < pages.len() ==> all_items(kind, #[trigger] pages[i]) {
        lemma_flattened_items(kind, pages);
    }
}

/// Where every element of every page is an item of the stream, the items
/// of all pages are the elements of all pages.
proof fn lemma_flattened_items(kind: ContentKind, pages: Seq<Seq<Option<ItemView>>>)
    requires
        forall|i: int| 0 <= i < pages.len() ==> all_items(kind, #[trigger] pages[i]),
    ensures
        items_by_page(kind, pages).flatten() == pages.flatten().map_values(
            |entry: Option<ItemView>| entry.unwrap(),
        ),
    decreases pages.len(),
{
    let unwrap = |entry: Option<ItemView>| entry.unwrap();
    if pages.len() == 0 {
        assert(items_by_page(kind, pages) =~= Seq::<Seq<ItemView>>::empty());
        assert(items_by_page(kind, pages).flatten() =~= pages.flatten().map_values(unwrap));
    } else {
        let before = pages.drop_last();
        let last = pages.last();
        assert forall|i: int| 0 <= i < before.len() implies all_items(
            kind,
            #[trigger] before[i],
        ) by {
            assert(before[i] == pages[i]);
        }
        lemma_flattened_items(kind, before);
        assert(all_items(kind, pages[pages.len() - 1]));
        lemma_all_items(kind, last);
        assert(items_by_page(kind, pages) =~= items_by_page(kind, before).push(
            items_in(kind, last),
        ));
        items_by_page(kind, before).lemma_flatten_push(items_in(kind, last));
        assert(pages =~= before.push(last));
        before.lemma_flatten_push(last);
        assert(items_by_page(kind, pages).flatten() =~= pages.flatten().map_values(unwrap));
    }
}

/// Nothing after the end. Once a walk has ended, whatever pages follow
/// change nothing: the walk stays where it ended, no further request is
/// answered and nothing more is yielded.
pub proof fn law_nothing_after_the_end(
    start: PaginatorView,
    pages: Seq<PageView>,
    more: Seq<PageView>,
)
    requires
        walk(start, pages).finished,
    ensures
        walk(start, pages + more) == walk(start, pages),
        calls(start, pages + more) == calls(start, pages),
        stream_of(start, pages + more) == stream_of(start, pages),
    decreases more.len(),
{
    if more.len() == 0 {
        assert(pages + more =~= pages);
    } else {
        law_nothing_after_the_end(start, pages, more.drop_last());
        assert((pages + more).drop_last() =~= pages + more.drop_last());
        assert((pages + more).last() == more.last());
        assert(stream_of(start, pages) + Seq::<ItemView>::empty() =~= stream_of(start, pages));
    }
}

/// Cursor derivation. Where a page does not end the stream, the next
/// request continues after the handle of the last item of the stream in
/// that page.
pub proof fn law_cursor_derivation(stream: PaginatorView, entries: Seq<Option<ItemView>>)
    requires
        !stream.finished,
        !stream.accept(PageView::Entries(entries)).finished,
    ensures
        items_in(stream.kind, entries).len() > 0,
        stream.accept(PageView::Entries(entries)).cursor == Some(
            items_in(stream.kind, entries).last().id,
        ),
        stream.accept(PageView::Entries(entries)).request() == Some(
            ListingControlView::page_after(
                Some(items_in(stream.kind, entries).last().id),
                stream.limit,
            ),
        ),
{
}

} // verus!

//! The listing paginator: walks one stream of an account page by page.
//!
//! The paginator never fetches anything itself. It says which page to ask
//! for ([`ListingPaginator::next_request`]), is handed what came back
//! ([`ListingPaginator::accept`]) and yields the items of that page. A page
//! shorter than the page size ends the stream; so does anything that is no
//! page at all, and a full page that does not end in an item of the stream.

use crate::error::Error;
use crate::purge::item::{
    entries_of, item_from, items_in, of_kind, page_of, ContentKind, ItemView, ListingItem,
    PageView,
};
use crate::purge::record::{Anomaly, AnomalyView, Record, RecordView};
use crate::reddit::{ListingControl, ListingControlView, Object};
use vstd::prelude::*;

verus! {

/// What a [`ListingPaginator`] is, mathematically.
pub ghost struct PaginatorView {
    /// The stream that is walked.
    pub kind: ContentKind,
    /// The page size.
    pub limit: u32,
    /// The position after the last page, absent at the start.
    pub cursor: Option<Seq<char>>,
    /// Whether the stream has ended.
    pub finished: bool,
}

impl PaginatorView {
    /// A paginator at the start of its stream.
    pub open spec fn fresh(kind: ContentKind, limit: u32) -> PaginatorView {
        PaginatorView { kind, limit, cursor: None, finished: false }
    }

    /// The page to ask for next; none once the stream has ended.
    pub open spec fn request(self) -> Option<ListingControlView> {
        if self.finished {
            None
        } else {
            Some(ListingControlView::page_after(self.cursor, self.limit))
        }
    }

    /// The position to continue from after a page: the handle of its last
    /// element, where the page is full and that element is an item of the
    /// stream. Anywhere else the stream ends with the page.
    pub open spec fn cursor_after(self, entries: Seq<Option<ItemView>>) -> Option<Seq<char>> {
        if entries.len() >= self.limit && entries.len() > 0 {
            match of_kind(self.kind)(entries.last()) {
                Some(item) => Some(item.id),
                None => None,
            }
        } else {
            None
        }
    }

    /// The paginator after it was handed `page`.
    pub open spec fn accept(self, page: PageView) -> PaginatorView {
        if self.finished {
            self
        } else {
            match page {
                PageView::Entries(entries) => match self.cursor_after(entries) {
                    Some(id) => PaginatorView { cursor: Some(id), ..self },
                    None => PaginatorView { finished: true, ..self },
                },
                _ => PaginatorView { finished: true, ..self },
            }
        }
    }

    /// The items that `page` adds to the stream.
    pub open spec fn yielded(self, page: PageView) -> Seq<ItemView> {
        if self.finished {
            Seq::empty()
        } else {
            match page {
                PageView::Entries(entries) => items_in(self.kind, entries),
                _ => Seq::empty(),
            }
        }
    }

    /// The diagnostics of being handed `page`: that it arrived, then each
    /// element that was passed over, then why the stream stopped early if
    /// it did.
    pub open spec fn reported(self, page: PageView) -> Seq<RecordView> {
        if self.finished {
            Seq::empty()
        } else {
            match page {
                PageView::Entries(entries) => {
                    let arrival = seq![
                        RecordView::PageFetched { kind: self.kind, count: entries.len() },
                    ] + skipped_in(self.kind, entries);
                    if entries.len() >= self.limit && self.cursor_after(entries) is None {
                        arrival.push(
                            RecordView::StreamTerminatedEarly {
                                kind: self.kind,
                                cause: AnomalyView::NoCursor,
                            },
                        )
                    } else {
                        arrival
                    }
                },
                PageView::Malformed => seq![
                    RecordView::StreamTerminatedEarly {
                        kind: self.kind,
                        cause: AnomalyView::MalformedPage,
                    },
                ],
                PageView::Failed(error) => seq![
                    RecordView::StreamTerminatedEarly {
                        kind: self.kind,
                        cause: AnomalyView::FetchFailed(error),
                    },
                ],
            }
        }
    }
}

/// The function that gives the diagnostic of passing over an element that
/// is no item of the stream `kind`, and nothing for an element that is one.
pub open spec fn passed_over(kind: ContentKind) -> spec_fn(Option<ItemView>) -> Option<
    RecordView,
> {
    |entry: Option<ItemView>|
        match of_kind(kind)(entry) {
            Some(_) => None,
            None => Some(RecordView::ItemSkipped { kind }),
        }
}

/// The diagnostics of passing over the elements of a page that are no
/// items of the stream `kind`, in order.
pub open spec fn skipped_in(kind: ContentKind, entries: Seq<Option<ItemView>>) -> Seq<
    RecordView,
> {
    entries.filter_map(passed_over(kind))
}

/// Walks one stream of an account page by page.
#[derive(Debug)]
pub struct ListingPaginator {
    kind: ContentKind,
    limit: u32,
    cursor: Option<String>,
    finished: bool,
}

impl View for ListingPaginator {
    type V = PaginatorView;

    closed spec fn view(&self) -> PaginatorView {
        PaginatorView {
            kind: self.kind,
            limit: self.limit,
            cursor: self.cursor.deep_view(),
            finished: self.finished,
        }
    }
}

/// What one page brought: the items it adds to the stream, and the
/// diagnostics of receiving it.
#[derive(Debug)]
pub struct Batch {
    pub items: Vec<ListingItem>,
    pub records: Vec<Record>,
}

/// Pushing onto a vector pushes the element's view onto the vector's.
pub proof fn lemma_deep_view_push<T: DeepView>(before: Vec<T>, after: Vec<T>, last: T)
    requires
        after@ == before@.push(last),
    ensures
        after.deep_view() == before.deep_view().push(last.deep_view()),
{
    assert(after.deep_view() =~= before.deep_view().push(last.deep_view()));
}

impl ListingPaginator {
    /// A paginator at the start of the stream `kind`, asking for pages of
    /// `limit` items.
    pub fn new(kind: ContentKind, limit: u32) -> (paginator: ListingPaginator)
        ensures
            paginator@ == PaginatorView::fresh(kind, limit),
    {
        ListingPaginator { kind, limit, cursor: None, finished: false }
    }

    /// The stream that is walked.
    pub fn kind(&self) -> (kind: ContentKind)
        ensures
            kind == self@.kind,
    {
        self.kind
    }

    /// The page size.
    pub fn limit(&self) -> (limit: u32)
        ensures
            limit == self@.limit,
    {
        self.limit
    }

    /// Whether the stream has ended.
    pub fn is_finished(&self) -> (finished: bool)
        ensures
            finished == self@.finished,
    {
        self.finished
    }

    /// The page to ask for next; none once the stream has ended.
    pub fn next_request(&self) -> (request: Option<ListingControl>)
        ensures
            request.deep_view() == self@.request(),
    {
        if self.finished {
            None
        } else {
            let after = match &self.cursor {
                Some(id) => Some(id.clone()),
                None => None,
            };
            Some(
                ListingControl {
                    after,
                    before: None,
                    limit: Some(self.limit),
                    count: None,
                    show: None,
                },
            )
        }
    }

    /// The items of this stream among `children`, in order. Each element
    /// that is no such item is logged to `records`.
    fn collect(&self, children: &Vec<Object>, records: &mut Vec<Record>) -> (items: Vec<
        ListingItem,
    >)
        ensures
            items.deep_view() == items_in(self@.kind, entries_of(children@)),
            final(records).deep_view() == old(records).deep_view() + skipped_in(
                self@.kind,
                entries_of(children@),
            ),
    {
        let ghost entries = entries_of(children@);
        let ghost logged = records.deep_view();
        let mut items: Vec<ListingItem> = Vec::new();
        let mut i: usize = 0;
        assert(records.deep_view() =~= logged + skipped_in(self.kind, entries.take(0)));
        while i < children.len()
            invariant
                i <= children.len(),
                entries == entries_of(children@),
                items.deep_view() == items_in(self.kind, entries.take(i as int)),
                records.deep_view() == logged + skipped_in(self.kind, entries.take(i as int)),
            decreases children.len() - i,
        {
            proof {
                entries.lemma_filter_map_take_succ(of_kind(self.kind), i as int);
                entries.lemma_filter_map_take_succ(passed_over(self.kind), i as int);
            }
            let kept = match item_from(&children[i]) {
                Some(item) => if item.kind == self.kind {
                    Some(item)
                } else {
                    None
                },
                None => None,
            };
            match kept {
                Some(item) => {
                    let ghost before = items;
                    items.push(item);
                    proof {
                        lemma_deep_view_push(before, items, item);
                    }
                },
                None => {
                    let ghost before = *records;
                    let record = Record::ItemSkipped { kind: self.kind };
                    records.push(record);
                    proof {
                        lemma_deep_view_push(before, *records, record);
                        assert(logged + (skipped_in(self.kind, entries.take(i as int))
                            + seq![record.deep_view()]) =~= (logged + skipped_in(
                            self.kind,
                            entries.take(i as int),
                        )).push(record.deep_view()));
                    }
                },
            }
            i = i + 1;
        }
        proof {
            entries.lemma_take_len();
        }
        items
    }

    /// The handle to continue after `children` from, if there is one.
    fn continuation(&self, children: &Vec<Object>) -> (cursor: Option<String>)
        ensures
            cursor.deep_view() == self@.cursor_after(entries_of(children@)),
    {
        let count = children.len();
        if count > 0 && count >= self.limit as usize {
            match item_from(&children[count - 1]) {
                Some(item) => if item.kind == self.kind {
                    Some(item.id)
                } else {
                    None
                },
                None => None,
            }
        } else {
            None
        }
    }

    /// Hands the paginator the answer to its last request. The result holds
    /// the items that the page adds to the stream. A paginator whose stream
    /// has ended ignores what it is handed.
    pub fn accept(&mut self, response: Result<Object, Error>) -> (batch: Batch)
        ensures
            final(self)@ == old(self)@.accept(page_of(response)),
            batch.items.deep_view() == old(self)@.yielded(page_of(response)),
            batch.records.deep_view() == old(self)@.reported(page_of(response)),
    {
        let mut records: Vec<Record> = Vec::new();
        if self.finished {
            let batch = Batch { items: Vec::new(), records };
            assert(batch.items.deep_view() =~= Seq::empty());
            assert(batch.records.deep_view() =~= Seq::empty());
            return batch;
        }
        match response {
            Ok(Object::Listing { modhash: _, dist: _, after: _, before: _, children }) => {
                let count = children.len();
                records.push(Record::PageFetched { kind: self.kind, count });
                assert(records.deep_view() =~= seq![
                    RecordView::PageFetched { kind: self.kind, count: count as nat },
                ]);
                let items = self.collect(&children, &mut records);
                match self.continuation(&children) {
                    Some(id) => {
                        self.cursor = Some(id);
                    },
                    None => {
                        self.finished = true;
                        if count >= self.limit as usize {
                            let ghost before = records;
                            let record = Record::StreamTerminatedEarly {
                                kind: self.kind,
                                cause: Anomaly::NoCursor,
                            };
                            records.push(record);
                            proof {
                                lemma_deep_view_push(before, records, record);
                            }
                        }
                    },
                }
                Batch { items, records }
            },
            Ok(_) => {
                self.finished = true;
                records.push(
                    Record::StreamTerminatedEarly {
                        kind: self.kind,
                        cause: Anomaly::MalformedPage,
                    },
                );
                let batch = Batch { items: Vec::new(), records };
                assert(batch.items.deep_view() =~= Seq::empty());
                assert(batch.records.deep_view() =~= old(self)@.reported(page_of(response)));
                batch
            },
            Err(error) => {
                self.finished = true;
                records.push(
                    Record::StreamTerminatedEarly {
                        kind: self.kind,
                        cause: Anomaly::FetchFailed(error),
                    },
                );
                let batch = Batch { items: Vec::new(), records };
                assert(batch.items.deep_view() =~= Seq::empty());
                assert(batch.records.deep_view() =~= old(self)@.reported(page_of(response)));
                batch
            },
        }
    }
}

} // verus!

//! The diagnostics of a run: one record for each thing worth logging.
//!
//! Failures below the level of the whole run never surface as errors;
//! they surface here.

use crate::error::{Error, ErrorView};
use crate::purge::item::{ContentKind, ItemView, ListingItem};
use vstd::prelude::*;

verus! {

/// Why a stream stopped before a short page told it to.
#[derive(Debug)]
pub enum Anomaly {
    /// The request for a page failed.
    FetchFailed(Error),
    /// What came back was no page of a listing.
    MalformedPage,
    /// A full page did not end in an item to continue after.
    NoCursor,
}

/// What an [`Anomaly`] is, mathematically.
pub ghost enum AnomalyView {
    FetchFailed(ErrorView),
    MalformedPage,
    NoCursor,
}

impl DeepView for Anomaly {
    type V = AnomalyView;

    open spec fn deep_view(&self) -> AnomalyView {
        match self {
            Anomaly::FetchFailed(error) => AnomalyView::FetchFailed(error@),
            Anomaly::MalformedPage => AnomalyView::MalformedPage,
            Anomaly::NoCursor => AnomalyView::NoCursor,
        }
    }
}

/// One entry of the diagnostics of a run.
#[derive(Debug)]
pub enum Record {
    /// A page of `count` elements arrived.
    PageFetched { kind: ContentKind, count: usize },
    /// An element of a page was passed over because it is no item of the
    /// stream.
    ItemSkipped { kind: ContentKind },
    /// An item was spared because its community is exempted.
    ItemExempted { item: ListingItem },
    /// An item was deleted.
    ItemDeleted { kind: ContentKind, id: String },
    /// The deletion of an item failed.
    ItemDeleteFailed { kind: ContentKind, id: String, error: Error },
    /// A stream stopped early.
    StreamTerminatedEarly { kind: ContentKind, cause: Anomaly },
}

/// What a [`Record`] is, mathematically.
pub ghost enum RecordView {
    PageFetched { kind: ContentKind, count: nat },
    ItemSkipped { kind: ContentKind },
    ItemExempted { item: ItemView },
    ItemDeleted { kind: ContentKind, id: Seq<char> },
    ItemDeleteFailed { kind: ContentKind, id: Seq<char>, error: ErrorView },
    StreamTerminatedEarly { kind: ContentKind, cause: AnomalyView },
}

impl DeepView for Record {
    type V = RecordView;

    open spec fn deep_view(&self) -> RecordView {
        match self {
            Record::PageFetched { kind, count } => RecordView::PageFetched {
                kind: *kind,
                count: *count as nat,
            },
            Record::ItemSkipped { kind } => RecordView::ItemSkipped { kind: *kind },
            Record::ItemExempted { item } => RecordView::ItemExempted { item: item.deep_view() },
            Record::ItemDeleted { kind, id } => RecordView::ItemDeleted { kind: *kind, id: id@ },
            Record::ItemDeleteFailed { kind, id, error } => RecordView::ItemDeleteFailed {
                kind: *kind,
                id: id@,
                error: error@,
            },
            Record::StreamTerminatedEarly { kind, cause } => RecordView::StreamTerminatedEarly {
                kind: *kind,
                cause: cause.deep_view(),
            },
        }
    }
}

} // verus!

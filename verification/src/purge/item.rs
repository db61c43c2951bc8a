//! The items of a listing, and what a page of a listing holds.

use crate::error::{Error, ErrorView};
use crate::reddit::Object;
use vstd::prelude::*;

verus! {

/// The two streams of content an account has.
#[derive(Clone, Copy, Debug, PartialEq, Eq, Structural)]
pub enum ContentKind {
    Posts,
    Comments,
}

/// One deletable item of a listing.
#[derive(Debug)]
pub struct ListingItem {
    /// The handle the item is deleted by.
    pub id: String,
    /// The community the item belongs to.
    pub category: String,
    /// The stream the item belongs to.
    pub kind: ContentKind,
}

/// What a [`ListingItem`] is, mathematically.
pub ghost struct ItemView {
    pub id: Seq<char>,
    pub category: Seq<char>,
    pub kind: ContentKind,
}

impl DeepView for ListingItem {
    type V = ItemView;

    open spec fn deep_view(&self) -> ItemView {
        ItemView { id: self.id@, category: self.category@, kind: self.kind }
    }
}

/// The item that an element of a page stands for: a link is a post, a
/// comment is a comment, and anything else is no item at all.
pub open spec fn item_of(object: Object) -> Option<ItemView> {
    match object {
        Object::Link { subreddit, title, name } => Some(
            ItemView { id: name@, category: subreddit@, kind: ContentKind::Posts },
        ),
        Object::Comment { link_title, link_id, subreddit, name } => Some(
            ItemView { id: name@, category: subreddit@, kind: ContentKind::Comments },
        ),
        _ => None,
    }
}

/// The item that `object` stands for, if it is one.
pub fn item_from(object: &Object) -> (item: Option<ListingItem>)
    ensures
        item.deep_view() == item_of(*object),
{
    match object {
        Object::Link { subreddit, title: _, name } => Some(
            ListingItem {
                id: name.clone(),
                category: subreddit.clone(),
                kind: ContentKind::Posts,
            },
        ),
        Object::Comment { link_title: _, link_id: _, subreddit, name } => Some(
            ListingItem {
                id: name.clone(),
                category: subreddit.clone(),
                kind: ContentKind::Comments,
            },
        ),
        _ => None,
    }
}

/// The elements of a page, each as the item it stands for.
pub open spec fn entries_of(children: Seq<Object>) -> Seq<Option<ItemView>> {
    children.map_values(|child: Object| item_of(child))
}

/// What came back for one request of a page, mathematically.
pub ghost enum PageView {
    /// A page of a listing, element by element; `None` stands for an
    /// element that is no item.
    Entries(Seq<Option<ItemView>>),
    /// Something that is no page of a listing.
    Malformed,
    /// The request failed.
    Failed(ErrorView),
}

/// The view of the answer to a request for a page.
pub open spec fn page_of(response: Result<Object, Error>) -> PageView {
    match response {
        Ok(Object::Listing { modhash, dist, after, before, children }) => PageView::Entries(
            entries_of(children@),
        ),
        Ok(_) => PageView::Malformed,
        Err(error) => PageView::Failed(error@),
    }
}

/// The function that keeps the items of one stream and drops every other
/// element of a page.
pub open spec fn of_kind(kind: ContentKind) -> spec_fn(Option<ItemView>) -> Option<ItemView> {
    |entry: Option<ItemView>|
        match entry {
            Some(item) => if item.kind == kind {
                Some(item)
            } else {
                None
            },
            None => None,
        }
}

/// The items of the stream `kind` among the elements of a page, in order.
pub open spec fn items_in(kind: ContentKind, entries: Seq<Option<ItemView>>) -> Seq<ItemView> {
    entries.filter_map(of_kind(kind))
}

} // verus!

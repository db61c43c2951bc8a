use regreddit::error::{Error, ErrorKind};
use regreddit::purge::item::{item_from, ContentKind};
use regreddit::purge::paginator::ListingPaginator;
use regreddit::purge::record::{Anomaly, Record};
use regreddit::reddit::Object;

fn link(name: &str, subreddit: &str) -> Object {
    Object::Link {
        subreddit: subreddit.to_string(),
        title: format!("title of {}", name),
        name: name.to_string(),
    }
}

fn comment(name: &str, subreddit: &str) -> Object {
    Object::Comment {
        link_title: "a post".to_string(),
        link_id: "t3_post".to_string(),
        subreddit: subreddit.to_string(),
        name: name.to_string(),
    }
}

fn listing(children: Vec<Object>) -> Object {
    Object::Listing {
        modhash: None,
        dist: children.len() as u64,
        after: None,
        before: None,
        children,
    }
}

fn links(from: usize, count: usize) -> Vec<Object> {
    (from..from + count).map(|n| link(&format!("t3_{}", n), "pics")).collect()
}

#[test]
fn items_are_read_off_links_and_comments() {
    let post = item_from(&link("t3_a", "pics")).unwrap();
    assert_eq!(post.id, "t3_a");
    assert_eq!(post.category, "pics");
    assert_eq!(post.kind, ContentKind::Posts);
    let reply = item_from(&comment("t1_b", "rust")).unwrap();
    assert_eq!(reply.id, "t1_b");
    assert_eq!(reply.category, "rust");
    assert_eq!(reply.kind, ContentKind::Comments);
}

#[test]
fn other_objects_are_no_items() {
    assert!(item_from(&Object::Unknown).is_none());
    assert!(item_from(&listing(Vec::new())).is_none());
}

#[test]
fn first_request_starts_at_the_beginning() {
    let paginator = ListingPaginator::new(ContentKind::Posts, 50);
    assert_eq!(paginator.kind(), ContentKind::Posts);
    assert_eq!(paginator.limit(), 50);
    assert!(!paginator.is_finished());
    let request = paginator.next_request().unwrap();
    assert_eq!(request.after, None);
    assert_eq!(request.before, None);
    assert_eq!(request.limit, Some(50));
    assert_eq!(request.count, None);
    assert!(request.show.is_none());
}

#[test]
fn short_page_ends_the_stream() {
    let mut paginator = ListingPaginator::new(ContentKind::Posts, 3);
    let batch = paginator.accept(Ok(listing(links(0, 2))));
    assert!(paginator.is_finished());
    assert!(paginator.next_request().is_none());
    let ids: Vec<&str> = batch.items.iter().map(|item| item.id.as_str()).collect();
    assert_eq!(ids, vec!["t3_0", "t3_1"]);
    assert_eq!(batch.records.len(), 1);
    assert!(matches!(
        batch.records[0],
        Record::PageFetched { kind: ContentKind::Posts, count: 2 }
    ));
}

#[test]
fn empty_page_ends_the_stream() {
    let mut paginator = ListingPaginator::new(ContentKind::Comments, 50);
    let batch = paginator.accept(Ok(listing(Vec::new())));
    assert!(paginator.is_finished());
    assert!(batch.items.is_empty());
    assert_eq!(batch.records.len(), 1);
    assert!(matches!(
        batch.records[0],
        Record::PageFetched { kind: ContentKind::Comments, count: 0 }
    ));
}

#[test]
fn full_page_moves_the_cursor_to_its_last_item() {
    let mut paginator = ListingPaginator::new(ContentKind::Posts, 3);
    let batch = paginator.accept(Ok(listing(links(0, 3))));
    assert!(!paginator.is_finished());
    assert_eq!(batch.items.len(), 3);
    let request = paginator.next_request().unwrap();
    assert_eq!(request.after.as_deref(), Some("t3_2"));
    assert_eq!(request.limit, Some(3));
    assert_eq!(batch.records.len(), 1);
}

#[test]
fn pages_longer_than_asked_for_count_as_full() {
    let mut paginator = ListingPaginator::new(ContentKind::Posts, 2);
    let batch = paginator.accept(Ok(listing(links(0, 5))));
    assert!(!paginator.is_finished());
    assert_eq!(batch.items.len(), 5);
    assert_eq!(paginator.next_request().unwrap().after.as_deref(), Some("t3_4"));
}

#[test]
fn walk_of_full_pages_ends_with_the_short_one() {
    let mut paginator = ListingPaginator::new(ContentKind::Posts, 2);
    let mut yielded: Vec<String> = Vec::new();
    let mut calls: usize = 0;
    let mut cursors: Vec<Option<String>> = Vec::new();
    let pages = vec![links(0, 2), links(2, 2), links(4, 1)];
    for page in pages {
        let request = paginator.next_request().unwrap();
        cursors.push(request.after);
        calls += 1;
        let batch = paginator.accept(Ok(listing(page)));
        yielded.extend(batch.items.into_iter().map(|item| item.id));
    }
    assert!(paginator.is_finished());
    assert_eq!(calls, 3);
    assert_eq!(calls, 5 / 2 + 1);
    assert_eq!(yielded, vec!["t3_0", "t3_1", "t3_2", "t3_3", "t3_4"]);
    assert_eq!(cursors, vec![None, Some("t3_1".to_string()), Some("t3_3".to_string())]);
}

#[test]
fn total_that_fills_its_pages_takes_one_more_request() {
    let mut paginator = ListingPaginator::new(ContentKind::Posts, 2);
    let mut calls: usize = 0;
    for page in vec![links(0, 2), links(2, 2), Vec::new()] {
        assert!(paginator.next_request().is_some());
        calls += 1;
        paginator.accept(Ok(listing(page)));
    }
    assert!(paginator.is_finished());
    assert_eq!(calls, 4 / 2 + 1);
}

#[test]
fn elements_that_are_no_items_are_skipped_and_logged() {
    let mut paginator = ListingPaginator::new(ContentKind::Posts, 50);
    let page = vec![link("t3_a", "pics"), Object::Unknown, comment("t1_x", "pics"), link("t3_b", "rust")];
    let batch = paginator.accept(Ok(listing(page)));
    let ids: Vec<&str> = batch.items.iter().map(|item| item.id.as_str()).collect();
    assert_eq!(ids, vec!["t3_a", "t3_b"]);
    assert_eq!(batch.records.len(), 3);
    assert!(matches!(batch.records[0], Record::PageFetched { kind: ContentKind::Posts, count: 4 }));
    assert!(matches!(batch.records[1], Record::ItemSkipped { kind: ContentKind::Posts }));
    assert!(matches!(batch.records[2], Record::ItemSkipped { kind: ContentKind::Posts }));
    assert!(paginator.is_finished());
}

#[test]
fn comments_stream_yields_comments_only() {
    let mut paginator = ListingPaginator::new(ContentKind::Comments, 2);
    let page = vec![link("t3_a", "pics"), comment("t1_x", "pics"), comment("t1_y", "rust")];
    let batch = paginator.accept(Ok(listing(page)));
    let ids: Vec<&str> = batch.items.iter().map(|item| item.id.as_str()).collect();
    assert_eq!(ids, vec!["t1_x", "t1_y"]);
    assert!(!paginator.is_finished());
    assert_eq!(paginator.next_request().unwrap().after.as_deref(), Some("t1_y"));
}

#[test]
fn full_page_that_ends_in_no_item_ends_the_stream_early() {
    let mut paginator = ListingPaginator::new(ContentKind::Posts, 3);
    let page = vec![link("t3_a", "pics"), link("t3_b", "pics"), Object::Unknown];
    let batch = paginator.accept(Ok(listing(page)));
    assert!(paginator.is_finished());
    assert_eq!(batch.items.len(), 2);
    assert_eq!(batch.records.len(), 3);
    assert!(matches!(batch.records[0], Record::PageFetched { kind: ContentKind::Posts, count: 3 }));
    assert!(matches!(batch.records[1], Record::ItemSkipped { kind: ContentKind::Posts }));
    assert!(matches!(
        batch.records[2],
        Record::StreamTerminatedEarly { kind: ContentKind::Posts, cause: Anomaly::NoCursor }
    ));
}

#[test]
fn full_page_that_ends_in_an_item_of_the_other_stream_ends_the_stream_early() {
    let mut paginator = ListingPaginator::new(ContentKind::Posts, 2);
    let page = vec![link("t3_a", "pics"), comment("t1_x", "pics")];
    let batch = paginator.accept(Ok(listing(page)));
    assert!(paginator.is_finished());
    assert_eq!(batch.items.len(), 1);
    assert_eq!(batch.records.len(), 3);
    assert!(matches!(batch.records[1], Record::ItemSkipped { kind: ContentKind::Posts }));
    assert!(matches!(
        batch.records[2],
        Record::StreamTerminatedEarly { kind: ContentKind::Posts, cause: Anomaly::NoCursor }
    ));
}

#[test]
fn element_passed_over_in_the_middle_does_not_end_the_stream() {
    let mut paginator = ListingPaginator::new(ContentKind::Posts, 3);
    let page = vec![link("t3_a", "pics"), Object::Unknown, link("t3_c", "pics")];
    let batch = paginator.accept(Ok(listing(page)));
    assert!(!paginator.is_finished());
    assert_eq!(batch.items.len(), 2);
    assert_eq!(batch.records.len(), 2);
    assert_eq!(paginator.next_request().unwrap().after.as_deref(), Some("t3_c"));
}

#[test]
fn page_size_zero_ends_with_the_first_empty_page() {
    let mut paginator = ListingPaginator::new(ContentKind::Posts, 0);
    assert_eq!(paginator.next_request().unwrap().limit, Some(0));
    let batch = paginator.accept(Ok(listing(Vec::new())));
    assert!(paginator.is_finished());
    assert_eq!(batch.records.len(), 2);
}

#[test]
fn answer_that_is_no_listing_ends_the_stream_early() {
    let mut paginator = ListingPaginator::new(ContentKind::Posts, 50);
    let batch = paginator.accept(Ok(link("t3_a", "pics")));
    assert!(paginator.is_finished());
    assert!(batch.items.is_empty());
    assert_eq!(batch.records.len(), 1);
    assert!(matches!(
        batch.records[0],
        Record::StreamTerminatedEarly { kind: ContentKind::Posts, cause: Anomaly::MalformedPage }
    ));
}

#[test]
fn failed_request_ends_the_stream_early() {
    let mut paginator = ListingPaginator::new(ContentKind::Comments, 50);
    let batch = paginator.accept(Err(Error::new(ErrorKind::Network, "connection reset")));
    assert!(paginator.is_finished());
    assert!(batch.items.is_empty());
    assert_eq!(batch.records.len(), 1);
    match &batch.records[0] {
        Record::StreamTerminatedEarly { kind, cause: Anomaly::FetchFailed(error) } => {
            assert_eq!(*kind, ContentKind::Comments);
            assert_eq!(error.kind(), ErrorKind::Network);
            assert_eq!(error.message(), "connection reset");
        }
        other => panic!("unexpected record {:?}", other),
    }
}

#[test]
fn finished_paginator_ignores_further_pages() {
    let mut paginator = ListingPaginator::new(ContentKind::Posts, 3);
    paginator.accept(Ok(listing(links(0, 1))));
    assert!(paginator.is_finished());
    let batch = paginator.accept(Ok(listing(links(1, 3))));
    assert!(paginator.is_finished());
    assert!(paginator.next_request().is_none());
    assert!(batch.items.is_empty());
    assert!(batch.records.is_empty());
}

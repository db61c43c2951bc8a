use regreddit::app::RegredditResult;
use regreddit::client::{BasicAuthResult, DeleteLinkResult};
use regreddit::error::{Error, ErrorKind};
use regreddit::purge::filter::ExemptionSet;
use regreddit::purge::item::ContentKind;
use regreddit::purge::orchestrator::{Action, Event, Phase, PurgeOrchestrator};
use regreddit::purge::record::Record;
use regreddit::reddit::Object;
use std::collections::VecDeque;

/// An account on a platform that answers from memory: it pages through
/// what the account holds and fails exactly the deletions it is told to.
struct Platform {
    password_is_right: bool,
    posts: Vec<(String, String)>,
    comments: Vec<(String, String)>,
    failing: Vec<String>,
    auth_calls: usize,
    list_calls: Vec<(ContentKind, Option<String>, usize)>,
    delete_calls: Vec<String>,
}

impl Platform {
    fn new(posts: Vec<(String, String)>, comments: Vec<(String, String)>) -> Platform {
        Platform {
            password_is_right: true,
            posts,
            comments,
            failing: Vec::new(),
            auth_calls: 0,
            list_calls: Vec::new(),
            delete_calls: Vec::new(),
        }
    }

    fn authenticate(&mut self) -> Result<BasicAuthResult, Error> {
        self.auth_calls += 1;
        if self.password_is_right {
            Ok(BasicAuthResult { access_token: "token".to_string() })
        } else {
            Err(Error::from(ErrorKind::Authentication))
        }
    }

    fn list(&mut self, kind: ContentKind, after: Option<String>, limit: usize) -> Object {
        let all = match kind {
            ContentKind::Posts => &self.posts,
            ContentKind::Comments => &self.comments,
        };
        let start = match &after {
            Some(id) => all.iter().position(|(name, _)| name == id).map_or(all.len(), |at| at + 1),
            None => 0,
        };
        let children: Vec<Object> = all[start..]
            .iter()
            .take(limit)
            .map(|(name, subreddit)| match kind {
                ContentKind::Posts => Object::Link {
                    subreddit: subreddit.clone(),
                    title: "a title".to_string(),
                    name: name.clone(),
                },
                ContentKind::Comments => Object::Comment {
                    link_title: "a post".to_string(),
                    link_id: "t3_post".to_string(),
                    subreddit: subreddit.clone(),
                    name: name.clone(),
                },
            })
            .collect();
        self.list_calls.push((kind, after, children.len()));
        Object::Listing {
            modhash: None,
            dist: children.len() as u64,
            after: None,
            before: None,
            children,
        }
    }

    fn delete(&mut self, id: &str) -> Result<DeleteLinkResult, Error> {
        self.delete_calls.push(id.to_string());
        if self.failing.iter().any(|failing| failing == id) {
            Err(Error::new(ErrorKind::Reddit, "not allowed"))
        } else {
            Ok(DeleteLinkResult {})
        }
    }

    fn list_calls_for(&self, kind: ContentKind) -> Vec<usize> {
        self.list_calls.iter().filter(|call| call.0 == kind).map(|call| call.2).collect()
    }
}

struct Outcome {
    result: Option<Result<RegredditResult, Error>>,
    records: Vec<Record>,
    phase: Phase,
}

/// Runs a purge to its end: performs each action on the platform and tells
/// the run how it went. Deletions are answered only after everything else,
/// as if each of them took long.
fn purge(platform: &mut Platform, whitelist: &[&str], limit: u32) -> Outcome {
    let exemptions = ExemptionSet::new(&whitelist.iter().map(|label| label.to_string()).collect());
    let mut run = PurgeOrchestrator::new(exemptions, limit);
    let mut events: VecDeque<Event> = VecDeque::new();
    let mut slow: VecDeque<Event> = VecDeque::new();
    let mut records = Vec::new();
    let mut result = None;
    events.push_back(Event::Started);
    loop {
        let event = match events.pop_front().or_else(|| slow.pop_front()) {
            Some(event) => event,
            None => break,
        };
        let reaction = run.step(event);
        records.extend(reaction.records);
        for action in reaction.actions {
            match action {
                Action::Authenticate => {
                    events.push_back(Event::Authenticated(platform.authenticate()))
                }
                Action::ListPage { kind, control } => {
                    let limit = control.limit.unwrap() as usize;
                    let response = Ok(platform.list(kind, control.after, limit));
                    events.push_back(Event::Page { kind, response });
                }
                Action::Delete { handle, id } => {
                    assert!(result.is_none());
                    slow.push_back(Event::Deleted { handle, outcome: platform.delete(&id) });
                }
                Action::Finish(outcome) => {
                    assert!(result.is_none());
                    result = Some(outcome);
                }
            }
        }
    }
    Outcome { result, records, phase: run.phase() }
}

fn posts(count: usize, subreddit: &str) -> Vec<(String, String)> {
    (0..count).map(|n| (format!("t3_{}", n), subreddit.to_string())).collect()
}

fn comments(count: usize, subreddit: &str) -> Vec<(String, String)> {
    (0..count).map(|n| (format!("t1_{}", n), subreddit.to_string())).collect()
}

#[test]
fn hundred_and_twenty_posts_take_three_pages() {
    let mut platform = Platform::new(posts(120, "pics"), Vec::new());
    let outcome = purge(&mut platform, &[], 50);
    assert!(matches!(outcome.result, Some(Ok(RegredditResult {}))));
    assert_eq!(outcome.phase, Phase::Done);
    assert_eq!(platform.auth_calls, 1);
    assert_eq!(platform.list_calls_for(ContentKind::Posts), vec![50, 50, 20]);
    assert_eq!(platform.list_calls_for(ContentKind::Comments), vec![0]);
    assert_eq!(platform.delete_calls.len(), 120);
    let expected: Vec<String> = (0..120).map(|n| format!("t3_{}", n)).collect();
    assert_eq!(platform.delete_calls, expected);
    let cursors: Vec<Option<String>> = platform
        .list_calls
        .iter()
        .filter(|call| call.0 == ContentKind::Posts)
        .map(|call| call.1.clone())
        .collect();
    assert_eq!(cursors, vec![None, Some("t3_49".to_string()), Some("t3_99".to_string())]);
    let deleted = outcome.records.iter().filter(|r| matches!(r, Record::ItemDeleted { .. })).count();
    assert_eq!(deleted, 120);
}

#[test]
fn run_succeeds_even_if_every_deletion_fails() {
    let mut platform = Platform::new(posts(120, "pics"), Vec::new());
    platform.failing = (0..120).map(|n| format!("t3_{}", n)).collect();
    let outcome = purge(&mut platform, &[], 50);
    assert!(matches!(outcome.result, Some(Ok(RegredditResult {}))));
    assert_eq!(outcome.phase, Phase::Done);
    assert_eq!(platform.list_calls_for(ContentKind::Posts), vec![50, 50, 20]);
    assert_eq!(platform.list_calls_for(ContentKind::Comments), vec![0]);
    assert_eq!(platform.delete_calls.len(), 120);
    let failed =
        outcome.records.iter().filter(|r| matches!(r, Record::ItemDeleteFailed { .. })).count();
    assert_eq!(failed, 120);
    let deleted = outcome.records.iter().filter(|r| matches!(r, Record::ItemDeleted { .. })).count();
    assert_eq!(deleted, 0);
}

#[test]
fn some_failing_deletions_leave_the_others_alone() {
    let mut platform = Platform::new(posts(5, "pics"), comments(3, "pics"));
    platform.failing = vec!["t3_1".to_string(), "t1_2".to_string()];
    let outcome = purge(&mut platform, &[], 50);
    assert!(matches!(outcome.result, Some(Ok(RegredditResult {}))));
    assert_eq!(platform.delete_calls.len(), 8);
    let mut failed: Vec<String> = outcome
        .records
        .iter()
        .filter_map(|record| match record {
            Record::ItemDeleteFailed { id, .. } => Some(id.clone()),
            _ => None,
        })
        .collect();
    failed.sort();
    assert_eq!(failed, vec!["t1_2", "t3_1"]);
    let deleted = outcome.records.iter().filter(|r| matches!(r, Record::ItemDeleted { .. })).count();
    assert_eq!(deleted, 6);
}

#[test]
fn ten_exempt_posts_are_all_spared() {
    let mut platform = Platform::new(posts(10, "rust"), Vec::new());
    let outcome = purge(&mut platform, &["rust"], 50);
    assert!(matches!(outcome.result, Some(Ok(RegredditResult {}))));
    assert_eq!(outcome.phase, Phase::Done);
    assert_eq!(platform.list_calls_for(ContentKind::Posts), vec![10]);
    assert!(platform.delete_calls.is_empty());
    let spared = outcome.records.iter().filter(|r| matches!(r, Record::ItemExempted { .. })).count();
    assert_eq!(spared, 10);
}

#[test]
fn only_unprotected_items_are_deleted() {
    let mut all = posts(4, "pics");
    all.extend((4..7).map(|n| (format!("t3_{}", n), "rust".to_string())));
    all.extend((7..9).map(|n| (format!("t3_{}", n), "pics".to_string())));
    let replies =
        vec![("t1_0".to_string(), "rust".to_string()), ("t1_1".to_string(), "music".to_string())];
    let mut platform = Platform::new(all, replies);
    let outcome = purge(&mut platform, &["rust"], 3);
    assert!(matches!(outcome.result, Some(Ok(RegredditResult {}))));
    let mut deleted = platform.delete_calls.clone();
    deleted.sort();
    assert_eq!(deleted, vec!["t1_1", "t3_0", "t3_1", "t3_2", "t3_3", "t3_7", "t3_8"]);
    assert_eq!(platform.list_calls_for(ContentKind::Posts), vec![3, 3, 3, 0]);
    assert_eq!(platform.list_calls_for(ContentKind::Comments), vec![2]);
}

#[test]
fn empty_account_needs_one_page_for_each_stream() {
    let mut platform = Platform::new(Vec::new(), Vec::new());
    let outcome = purge(&mut platform, &[], 50);
    assert!(matches!(outcome.result, Some(Ok(RegredditResult {}))));
    assert_eq!(outcome.phase, Phase::Done);
    assert_eq!(platform.list_calls_for(ContentKind::Posts), vec![0]);
    assert_eq!(platform.list_calls_for(ContentKind::Comments), vec![0]);
    assert!(platform.delete_calls.is_empty());
}

#[test]
fn wrong_password_makes_no_further_call() {
    let mut platform = Platform::new(posts(120, "pics"), comments(7, "pics"));
    platform.password_is_right = false;
    let outcome = purge(&mut platform, &[], 50);
    match outcome.result {
        Some(Err(error)) => {
            assert_eq!(error.kind(), ErrorKind::Authentication);
            assert_eq!(error.message(), "could not authenticate");
        }
        other => panic!("unexpected result {:?}", other),
    }
    assert_eq!(outcome.phase, Phase::Failed);
    assert_eq!(platform.auth_calls, 1);
    assert!(platform.list_calls.is_empty());
    assert!(platform.delete_calls.is_empty());
    assert!(outcome.records.is_empty());
}

#[test]
fn both_streams_are_walked_to_their_ends() {
    let mut platform = Platform::new(posts(7, "pics"), comments(5, "pics"));
    let outcome = purge(&mut platform, &[], 2);
    assert!(matches!(outcome.result, Some(Ok(RegredditResult {}))));
    assert_eq!(platform.list_calls_for(ContentKind::Posts), vec![2, 2, 2, 1]);
    assert_eq!(platform.list_calls_for(ContentKind::Comments), vec![2, 2, 1]);
    assert_eq!(platform.delete_calls.len(), 12);
    let fetched = outcome.records.iter().filter(|r| matches!(r, Record::PageFetched { .. })).count();
    assert_eq!(fetched, 7);
}

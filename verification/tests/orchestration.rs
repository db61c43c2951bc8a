use regreddit::app::{RegredditParams, RegredditResult};
use regreddit::client::{BasicAuthResult, DeleteLinkResult};
use regreddit::error::{Error, ErrorKind};
use regreddit::purge::deleter::TaskStatus;
use regreddit::purge::filter::ExemptionSet;
use regreddit::purge::item::ContentKind;
use regreddit::purge::orchestrator::{Action, Event, Phase, PurgeOrchestrator, Reaction};
use regreddit::purge::record::{Anomaly, Record};
use regreddit::reddit::Object;
use regreddit::settings::{Credentials, Settings};

fn link(name: &str, subreddit: &str) -> Object {
    Object::Link {
        subreddit: subreddit.to_string(),
        title: "a title".to_string(),
        name: name.to_string(),
    }
}

fn comment(name: &str, subreddit: &str) -> Object {
    Object::Comment {
        link_title: "a post".to_string(),
        link_id: "t3_post".to_string(),
        subreddit: subreddit.to_string(),
        name: name.to_string(),
    }
}

fn listing(children: Vec<Object>) -> Object {
    Object::Listing {
        modhash: None,
        dist: children.len() as u64,
        after: None,
        before: None,
        children,
    }
}

fn sparing(names: &[&str]) -> ExemptionSet {
    ExemptionSet::new(&names.iter().map(|name| name.to_string()).collect())
}

fn granted(token: &str) -> Event {
    Event::Authenticated(Ok(BasicAuthResult { access_token: token.to_string() }))
}

fn page(kind: ContentKind, children: Vec<Object>) -> Event {
    Event::Page { kind, response: Ok(listing(children)) }
}

fn deleted(handle: usize) -> Event {
    Event::Deleted { handle, outcome: Ok(DeleteLinkResult {}) }
}

fn failed(handle: usize) -> Event {
    Event::Deleted { handle, outcome: Err(Error::new(ErrorKind::Network, "timed out")) }
}

/// One line for each action, so that whole reactions compare at a glance.
fn told(reaction: &Reaction) -> Vec<String> {
    reaction
        .actions
        .iter()
        .map(|action| match action {
            Action::Authenticate => "authenticate".to_string(),
            Action::ListPage { kind, control } => format!(
                "list {:?} after {:?} limit {:?}",
                kind, control.after, control.limit
            ),
            Action::Delete { handle, id } => format!("delete {} as {}", id, handle),
            Action::Finish(Ok(RegredditResult {})) => "finish ok".to_string(),
            Action::Finish(Err(error)) => {
                format!("finish {:?}: {}", error.kind(), error.message())
            }
        })
        .collect()
}

fn running(limit: u32, spared: &[&str]) -> PurgeOrchestrator {
    let mut run = PurgeOrchestrator::new(sparing(spared), limit);
    run.step(Event::Started);
    run.step(granted("token"));
    run
}

#[test]
fn run_starts_idle_and_asks_to_authenticate() {
    let mut run = PurgeOrchestrator::new(sparing(&[]), 50);
    assert_eq!(run.phase(), Phase::Idle);
    assert_eq!(run.access_token(), None);
    let reaction = run.step(Event::Started);
    assert_eq!(told(&reaction), vec!["authenticate"]);
    assert!(reaction.records.is_empty());
    assert_eq!(run.phase(), Phase::Authenticating);
}

#[test]
fn authentication_starts_both_streams() {
    let mut run = PurgeOrchestrator::new(sparing(&[]), 50);
    run.step(Event::Started);
    let reaction = run.step(granted("secret token"));
    assert_eq!(
        told(&reaction),
        vec![
            "list Comments after None limit Some(50)",
            "list Posts after None limit Some(50)",
        ]
    );
    assert_eq!(run.phase(), Phase::Running);
    assert_eq!(run.access_token(), Some("secret token"));
    assert!(!run.stream_finished(ContentKind::Posts));
    assert!(!run.stream_finished(ContentKind::Comments));
}

#[test]
fn failed_authentication_fails_the_run_and_starts_nothing() {
    let mut run = PurgeOrchestrator::new(sparing(&[]), 50);
    run.step(Event::Started);
    let reaction =
        run.step(Event::Authenticated(Err(Error::new(ErrorKind::Authentication, "bad password"))));
    assert_eq!(told(&reaction), vec!["finish Authentication: bad password"]);
    assert!(reaction.records.is_empty());
    assert_eq!(run.phase(), Phase::Failed);
    assert_eq!(run.access_token(), None);
    assert_eq!(run.dispatched(), 0);
}

#[test]
fn failed_run_ignores_everything_that_follows() {
    let mut run = PurgeOrchestrator::new(sparing(&[]), 50);
    run.step(Event::Started);
    run.step(Event::Authenticated(Err(Error::from(ErrorKind::Authentication))));
    let later = vec![
        Event::Started,
        granted("token"),
        page(ContentKind::Posts, vec![link("t3_a", "pics")]),
        deleted(0),
    ];
    for event in later {
        let reaction = run.step(event);
        assert!(reaction.actions.is_empty());
        assert!(reaction.records.is_empty());
        assert_eq!(run.phase(), Phase::Failed);
    }
    assert_eq!(run.dispatched(), 0);
}

#[test]
fn events_before_authentication_are_ignored() {
    let mut run = PurgeOrchestrator::new(sparing(&[]), 50);
    let reaction = run.step(page(ContentKind::Posts, vec![link("t3_a", "pics")]));
    assert!(reaction.actions.is_empty());
    assert_eq!(run.phase(), Phase::Idle);
    let reaction = run.step(granted("token"));
    assert!(reaction.actions.is_empty());
    assert_eq!(run.phase(), Phase::Idle);
    run.step(Event::Started);
    let reaction = run.step(deleted(0));
    assert!(reaction.actions.is_empty());
    assert_eq!(run.phase(), Phase::Authenticating);
    assert_eq!(run.dispatched(), 0);
}

#[test]
fn account_without_content_is_done_at_once() {
    let mut run = running(50, &[]);
    let reaction = run.step(page(ContentKind::Comments, Vec::new()));
    assert!(reaction.actions.is_empty());
    assert_eq!(run.phase(), Phase::Running);
    let reaction = run.step(page(ContentKind::Posts, Vec::new()));
    assert_eq!(told(&reaction), vec!["finish ok"]);
    assert_eq!(run.phase(), Phase::Done);
    assert_eq!(run.dispatched(), 0);
    assert_eq!(run.outstanding(), 0);
}

#[test]
fn items_of_a_page_are_dispatched_in_order() {
    let mut run = running(2, &[]);
    let reaction = run.step(page(ContentKind::Posts, vec![link("t3_a", "pics"), link("t3_b", "rust")]));
    assert_eq!(
        told(&reaction),
        vec!["delete t3_a as 0", "delete t3_b as 1", "list Posts after Some(\"t3_b\") limit Some(2)"]
    );
    assert_eq!(run.dispatched(), 2);
    assert_eq!(run.outstanding(), 2);
    let reaction = run.step(page(ContentKind::Comments, vec![comment("t1_x", "pics")]));
    assert_eq!(told(&reaction), vec!["delete t1_x as 2"]);
    assert!(run.stream_finished(ContentKind::Comments));
    assert_eq!(run.phase(), Phase::Running);
}

#[test]
fn exempt_items_are_spared_and_logged() {
    let mut run = running(50, &["rust"]);
    let reaction = run.step(page(
        ContentKind::Posts,
        vec![link("t3_a", "pics"), link("t3_b", "rust"), link("t3_c", "pics"), link("t3_d", "rust")],
    ));
    assert_eq!(told(&reaction), vec!["delete t3_a as 0", "delete t3_c as 1"]);
    assert_eq!(reaction.records.len(), 3);
    assert!(matches!(
        reaction.records[0],
        Record::PageFetched { kind: ContentKind::Posts, count: 4 }
    ));
    match (&reaction.records[1], &reaction.records[2]) {
        (Record::ItemExempted { item: first }, Record::ItemExempted { item: second }) => {
            assert_eq!(first.id, "t3_b");
            assert_eq!(first.category, "rust");
            assert_eq!(first.kind, ContentKind::Posts);
            assert_eq!(second.id, "t3_d");
        }
        other => panic!("unexpected records {:?}", other),
    }
    assert_eq!(run.dispatched(), 2);
}

#[test]
fn run_drains_before_it_is_done() {
    let mut run = running(50, &[]);
    run.step(page(ContentKind::Posts, vec![link("t3_a", "pics"), link("t3_b", "pics")]));
    let reaction = run.step(page(ContentKind::Comments, vec![comment("t1_x", "pics")]));
    assert_eq!(told(&reaction), vec!["delete t1_x as 2"]);
    assert_eq!(run.phase(), Phase::Draining);
    assert_eq!(run.outstanding(), 3);
    assert!(told(&run.step(deleted(1))).is_empty());
    assert_eq!(run.phase(), Phase::Draining);
    assert!(told(&run.step(deleted(0))).is_empty());
    assert_eq!(run.phase(), Phase::Draining);
    assert_eq!(run.outstanding(), 1);
    let reaction = run.step(deleted(2));
    assert_eq!(told(&reaction), vec!["finish ok"]);
    assert_eq!(run.phase(), Phase::Done);
    assert_eq!(run.outstanding(), 0);
}

#[test]
fn deletions_may_come_back_while_streams_are_walked() {
    let mut run = running(1, &[]);
    run.step(page(ContentKind::Posts, vec![link("t3_a", "pics")]));
    let reaction = run.step(deleted(0));
    assert!(reaction.actions.is_empty());
    match &reaction.records[..] {
        [Record::ItemDeleted { kind, id }] => {
            assert_eq!(*kind, ContentKind::Posts);
            assert_eq!(id, "t3_a");
        }
        other => panic!("unexpected records {:?}", other),
    }
    assert_eq!(run.phase(), Phase::Running);
    assert_eq!(run.outstanding(), 0);
    run.step(page(ContentKind::Posts, Vec::new()));
    assert_eq!(run.phase(), Phase::Running);
    let reaction = run.step(page(ContentKind::Comments, Vec::new()));
    assert_eq!(told(&reaction), vec!["finish ok"]);
    assert_eq!(run.phase(), Phase::Done);
}

#[test]
fn failed_deletions_do_not_fail_the_run() {
    let mut run = running(50, &[]);
    run.step(page(ContentKind::Comments, Vec::new()));
    run.step(page(ContentKind::Posts, vec![link("t3_a", "pics"), link("t3_b", "pics")]));
    assert_eq!(run.phase(), Phase::Draining);
    let reaction = run.step(failed(0));
    assert!(reaction.actions.is_empty());
    match &reaction.records[..] {
        [Record::ItemDeleteFailed { kind, id, error }] => {
            assert_eq!(*kind, ContentKind::Posts);
            assert_eq!(id, "t3_a");
            assert_eq!(error.kind(), ErrorKind::Network);
            assert_eq!(error.message(), "timed out");
        }
        other => panic!("unexpected records {:?}", other),
    }
    let reaction = run.step(failed(1));
    assert_eq!(told(&reaction), vec!["finish ok"]);
    assert_eq!(run.phase(), Phase::Done);
}

#[test]
fn failures_and_successes_lead_to_the_same_actions() {
    let mut one = running(2, &["rust"]);
    let mut other = running(2, &["rust"]);
    let posts = || vec![link("t3_a", "pics"), link("t3_b", "rust")];
    assert_eq!(
        told(&one.step(page(ContentKind::Posts, posts()))),
        told(&other.step(page(ContentKind::Posts, posts())))
    );
    assert_eq!(told(&one.step(deleted(0))), told(&other.step(failed(0))));
    assert_eq!(
        told(&one.step(page(ContentKind::Posts, vec![link("t3_c", "pics")]))),
        told(&other.step(page(ContentKind::Posts, vec![link("t3_c", "pics")])))
    );
    assert_eq!(
        told(&one.step(page(ContentKind::Comments, Vec::new()))),
        told(&other.step(page(ContentKind::Comments, Vec::new())))
    );
    assert_eq!(one.phase(), Phase::Draining);
    assert_eq!(other.phase(), Phase::Draining);
    assert_eq!(told(&one.step(failed(1))), vec!["finish ok"]);
    assert_eq!(told(&other.step(deleted(1))), vec!["finish ok"]);
    assert_eq!(one.phase(), other.phase());
}

#[test]
fn page_for_a_stream_that_has_ended_is_ignored() {
    let mut run = running(50, &[]);
    run.step(page(ContentKind::Posts, Vec::new()));
    let reaction = run.step(page(ContentKind::Posts, vec![link("t3_a", "pics")]));
    assert!(reaction.actions.is_empty());
    assert!(reaction.records.is_empty());
    assert_eq!(run.dispatched(), 0);
    assert_eq!(run.phase(), Phase::Running);
}

#[test]
fn deletion_that_is_not_out_is_ignored() {
    let mut run = running(50, &[]);
    run.step(page(ContentKind::Posts, vec![link("t3_a", "pics")]));
    let reaction = run.step(deleted(5));
    assert!(reaction.actions.is_empty());
    assert!(reaction.records.is_empty());
    run.step(deleted(0));
    let reaction = run.step(failed(0));
    assert!(reaction.actions.is_empty());
    assert!(reaction.records.is_empty());
    assert_eq!(run.outstanding(), 0);
}

#[test]
fn finished_run_ignores_everything_that_follows() {
    let mut run = running(50, &[]);
    run.step(page(ContentKind::Posts, Vec::new()));
    run.step(page(ContentKind::Comments, Vec::new()));
    assert_eq!(run.phase(), Phase::Done);
    for event in vec![Event::Started, granted("again"), page(ContentKind::Posts, Vec::new()), deleted(0)] {
        let reaction = run.step(event);
        assert!(reaction.actions.is_empty());
        assert!(reaction.records.is_empty());
        assert_eq!(run.phase(), Phase::Done);
    }
    assert_eq!(run.access_token(), Some("token"));
}

#[test]
fn failed_fetch_stops_one_stream_only() {
    let mut run = running(1, &[]);
    let reaction = run.step(Event::Page {
        kind: ContentKind::Posts,
        response: Err(Error::new(ErrorKind::Network, "connection reset")),
    });
    assert!(reaction.actions.is_empty());
    match &reaction.records[..] {
        [Record::StreamTerminatedEarly { kind, cause: Anomaly::FetchFailed(error) }] => {
            assert_eq!(*kind, ContentKind::Posts);
            assert_eq!(error.message(), "connection reset");
        }
        other => panic!("unexpected records {:?}", other),
    }
    assert!(run.stream_finished(ContentKind::Posts));
    assert!(!run.stream_finished(ContentKind::Comments));
    assert_eq!(run.phase(), Phase::Running);
    let reaction = run.step(page(ContentKind::Comments, vec![comment("t1_x", "pics")]));
    assert_eq!(
        told(&reaction),
        vec!["delete t1_x as 0", "list Comments after Some(\"t1_x\") limit Some(1)"]
    );
}

#[test]
fn malformed_page_stops_its_stream_and_keeps_dispatched_deletions() {
    let mut run = running(1, &[]);
    run.step(page(ContentKind::Posts, vec![link("t3_a", "pics")]));
    let reaction = run.step(Event::Page { kind: ContentKind::Posts, response: Ok(Object::Unknown) });
    assert!(reaction.actions.is_empty());
    assert!(matches!(
        reaction.records[..],
        [Record::StreamTerminatedEarly { kind: ContentKind::Posts, cause: Anomaly::MalformedPage }]
    ));
    run.step(page(ContentKind::Comments, Vec::new()));
    assert_eq!(run.phase(), Phase::Draining);
    assert_eq!(told(&run.step(deleted(0))), vec!["finish ok"]);
}

#[test]
fn run_for_settings_spares_the_whitelist_and_pages_by_fifty() {
    let settings = Settings {
        credentials: Credentials {
            client_id: "app".to_string(),
            secret: "hush".to_string(),
            username: "someone".to_string(),
            password: "pass".to_string(),
        },
        whitelist: vec!["rust".to_string(), "programming".to_string()],
    };
    let mut run = PurgeOrchestrator::for_params(&RegredditParams { settings: &settings });
    assert_eq!(run.phase(), Phase::Idle);
    run.step(Event::Started);
    let reaction = run.step(granted("token"));
    assert_eq!(
        told(&reaction),
        vec![
            "list Comments after None limit Some(50)",
            "list Posts after None limit Some(50)",
        ]
    );
    let reaction = run.step(page(
        ContentKind::Posts,
        vec![link("t3_a", "rust"), link("t3_b", "pics"), link("t3_c", "programming")],
    ));
    assert_eq!(told(&reaction), vec!["delete t3_b as 0"]);
}

#[test]
fn deletions_asked_for_match_the_books() {
    let mut run = running(2, &["rust"]);
    let mut asked: Vec<(usize, String)> = Vec::new();
    let pages = vec![
        page(ContentKind::Posts, vec![link("t3_a", "pics"), link("t3_b", "rust")]),
        page(ContentKind::Comments, vec![comment("t1_x", "pics"), comment("t1_y", "pics")]),
        page(ContentKind::Posts, vec![link("t3_c", "pics")]),
        page(ContentKind::Comments, Vec::new()),
    ];
    for event in pages {
        for action in run.step(event).actions {
            if let Action::Delete { handle, id } = action {
                asked.push((handle, id));
            }
        }
    }
    let handles: Vec<usize> = asked.iter().map(|(handle, _)| *handle).collect();
    assert_eq!(handles, vec![0, 1, 2, 3]);
    assert_eq!(run.dispatched(), 4);
    assert_eq!(run.outstanding(), 4);
    assert_eq!(run.phase(), Phase::Draining);
    for (handle, _) in &asked {
        assert_eq!(run.phase(), Phase::Draining);
        run.step(deleted(*handle));
    }
    assert_eq!(run.phase(), Phase::Done);
    assert_eq!(run.outstanding(), 0);
}

#[test]
fn every_task_is_resolved_once_the_run_is_done() {
    let mut run = running(50, &[]);
    run.step(page(ContentKind::Posts, vec![link("t3_a", "pics"), link("t3_b", "pics")]));
    run.step(page(ContentKind::Comments, vec![comment("t1_x", "pics")]));
    assert_eq!(run.task(1).unwrap().id(), "t3_b");
    assert_eq!(run.task(1).unwrap().kind(), ContentKind::Posts);
    assert_eq!(run.task(2).unwrap().kind(), ContentKind::Comments);
    assert_eq!(run.task(2).unwrap().status(), TaskStatus::Pending);
    assert!(run.task(3).is_none());
    run.step(failed(2));
    run.step(deleted(0));
    assert_ne!(run.phase(), Phase::Done);
    run.step(deleted(1));
    assert_eq!(run.phase(), Phase::Done);
    let statuses: Vec<TaskStatus> =
        (0..run.dispatched()).map(|handle| run.task(handle).unwrap().status()).collect();
    assert_eq!(statuses, vec![TaskStatus::Deleted, TaskStatus::Deleted, TaskStatus::Failed]);
}

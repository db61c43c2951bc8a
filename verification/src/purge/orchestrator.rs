//! The purge orchestrator: one run, from authentication to the last
//! deletion, as a state machine.
//!
//! The caller performs every call to the platform and tells the
//! orchestrator how it went. A run starts `Idle`, authenticates, then walks
//! both streams at once while deletions are dispatched for the items that no
//! exemption protects. Once both streams have ended it is `Draining` until
//! every dispatched deletion has come back, and only then `Done`. Nothing
//! but a failed authentication makes a run fail.

use crate::app::{RegredditParams, RegredditResult, LISTING_LIMIT};
use crate::client::{BasicAuthResult, DeleteLinkResult};
use crate::error::{Error, ErrorView};
use crate::purge::deleter::{
    awaits, outcome_of, pending_in, resolution_record, resolved, ConcurrentDeleter, DeletionTask,
    TaskView,
};
use crate::purge::filter::{is_exempt, spared, survives, ExemptionSet};
use crate::purge::item::{page_of, ContentKind, ItemView, ListingItem, PageView};
use crate::purge::paginator::{lemma_deep_view_push, Batch, ListingPaginator, PaginatorView};
use crate::purge::record::{Record, RecordView};
use crate::reddit::{ListingControl, ListingControlView, Object};
use vstd::prelude::*;

verus! {

/// Where a run stands.
#[derive(Clone, Copy, Debug, PartialEq, Eq, Structural)]
pub enum Phase {
    /// Nothing has happened yet.
    Idle,
    /// The access token has been asked for.
    Authenticating,
    /// At least one stream is still being walked.
    Running,
    /// Both streams have ended; some deletions are still out.
    Draining,
    /// Both streams have ended and every deletion has come back.
    Done,
    /// Authentication failed; nothing else was ever started.
    Failed,
}

/// What the caller tells the orchestrator.
#[derive(Debug)]
pub enum Event {
    /// The run is to begin.
    Started,
    /// The request for an access token came back.
    Authenticated(Result<BasicAuthResult, Error>),
    /// The request for the next page of a stream came back.
    Page { kind: ContentKind, response: Result<Object, Error> },
    /// The deletion named by `handle` came back.
    Deleted { handle: usize, outcome: Result<DeleteLinkResult, Error> },
}

/// What an [`Event`] is, mathematically.
pub ghost enum EventView {
    Started,
    Authenticated(Result<Seq<char>, ErrorView>),
    Page { kind: ContentKind, page: PageView },
    Deleted { handle: nat, outcome: Result<(), ErrorView> },
}

impl DeepView for Event {
    type V = EventView;

    open spec fn deep_view(&self) -> EventView {
        match self {
            Event::Started => EventView::Started,
            Event::Authenticated(Ok(result)) => EventView::Authenticated(Ok(result.access_token@)),
            Event::Authenticated(Err(error)) => EventView::Authenticated(Err(error@)),
            Event::Page { kind, response } => EventView::Page {
                kind: *kind,
                page: page_of(*response),
            },
            Event::Deleted { handle, outcome } => EventView::Deleted {
                handle: *handle as nat,
                outcome: outcome_of(*outcome),
            },
        }
    }
}

/// What the orchestrator tells the caller to do.
#[derive(Debug)]
pub enum Action {
    /// Ask for an access token.
    Authenticate,
    /// Ask for a page of a stream.
    ListPage { kind: ContentKind, control: ListingControl },
    /// Delete the item `id`, without waiting for any other deletion, and
    /// report how it went under `handle`.
    Delete { handle: usize, id: String },
    /// The run is over, with this result.
    Finish(Result<RegredditResult, Error>),
}

/// What an [`Action`] is, mathematically.
pub ghost enum ActionView {
    Authenticate,
    ListPage { kind: ContentKind, control: ListingControlView },
    Delete { handle: nat, id: Seq<char> },
    Finish(Result<(), ErrorView>),
}

impl DeepView for Action {
    type V = ActionView;

    open spec fn deep_view(&self) -> ActionView {
        match self {
            Action::Authenticate => ActionView::Authenticate,
            Action::ListPage { kind, control } => ActionView::ListPage {
                kind: *kind,
                control: control.deep_view(),
            },
            Action::Delete { handle, id } => ActionView::Delete { handle: *handle as nat, id: id@ },
            Action::Finish(Ok(_)) => ActionView::Finish(Ok(())),
            Action::Finish(Err(error)) => ActionView::Finish(Err(error@)),
        }
    }
}

/// The answer to one event: what to do next, in order, and what to log.
#[derive(Debug)]
pub struct Reaction {
    pub actions: Vec<Action>,
    pub records: Vec<Record>,
}

/// The tasks that dispatching `items` creates, in order.
pub open spec fn tasks_for(items: Seq<ItemView>) -> Seq<TaskView> {
    items.map_values(|item: ItemView| TaskView::pending(item.id, item.kind))
}

/// The deletions that dispatching `items` asks for, in order, where `base`
/// tasks were dispatched before.
pub open spec fn deletions(base: nat, items: Seq<ItemView>) -> Seq<ActionView> {
    Seq::new(
        items.len(),
        |j: int| ActionView::Delete { handle: (base + j) as nat, id: items[j].id },
    )
}

/// The diagnostics of sparing `items`, in order.
pub open spec fn exemptions_of(items: Seq<ItemView>) -> Seq<RecordView> {
    items.map_values(|item: ItemView| RecordView::ItemExempted { item })
}

/// The request for the next page of a stream, if the stream goes on.
pub open spec fn continuation(stream: PaginatorView) -> Seq<ActionView> {
    match stream.request() {
        Some(control) => seq![ActionView::ListPage { kind: stream.kind, control }],
        None => Seq::empty(),
    }
}

/// What a [`PurgeOrchestrator`] is, mathematically.
pub ghost struct PurgeView {
    pub phase: Phase,
    /// The communities whose content is spared.
    pub exemptions: Set<Seq<char>>,
    /// The walk through the posts.
    pub posts: PaginatorView,
    /// The walk through the comments.
    pub comments: PaginatorView,
    /// Every deletion dispatched so far, by handle.
    pub tasks: Seq<TaskView>,
    /// The access token, once there is one.
    pub token: Option<Seq<char>>,
}

impl PurgeView {
    /// A run that has not begun.
    pub open spec fn initial(exemptions: Set<Seq<char>>, limit: u32) -> PurgeView {
        PurgeView {
            phase: Phase::Idle,
            exemptions,
            posts: PaginatorView::fresh(ContentKind::Posts, limit),
            comments: PaginatorView::fresh(ContentKind::Comments, limit),
            tasks: Seq::empty(),
            token: None,
        }
    }

    /// The walk through the stream `kind`.
    pub open spec fn stream(self, kind: ContentKind) -> PaginatorView {
        match kind {
            ContentKind::Posts => self.posts,
            ContentKind::Comments => self.comments,
        }
    }

    /// Whether both streams have ended.
    pub open spec fn streams_ended(self) -> bool {
        self.posts.finished && self.comments.finished
    }

    /// The number of deletions that are still out.
    pub open spec fn outstanding(self) -> nat {
        pending_in(self.tasks)
    }

    /// What holds of every state a run can be in.
    pub open spec fn wf(self) -> bool {
        &&& self.posts.kind == ContentKind::Posts
        &&& self.comments.kind == ContentKind::Comments
        &&& match self.phase {
            Phase::Idle | Phase::Authenticating | Phase::Failed => {
                &&& self.tasks.len() == 0
                &&& !self.posts.finished
                &&& !self.comments.finished
            },
            Phase::Running => !self.streams_ended(),
            Phase::Draining => self.streams_ended() && self.outstanding() > 0,
            Phase::Done => self.streams_ended() && self.outstanding() == 0,
        }
    }

    /// The items of `page` that are dispatched for deletion: those of the
    /// stream `kind` that no exemption protects, in order.
    pub open spec fn condemned(self, kind: ContentKind, page: PageView) -> Seq<ItemView> {
        self.stream(kind).yielded(page).filter(survives(self.exemptions))
    }

    /// The items of `page` that are spared: those of the stream `kind` that
    /// an exemption protects, in order.
    pub open spec fn protected(self, kind: ContentKind, page: PageView) -> Seq<ItemView> {
        self.stream(kind).yielded(page).filter(spared(self.exemptions))
    }

    /// The phase of a run that is past authentication, given its streams
    /// and its tasks.
    pub open spec fn settle(self) -> PurgeView {
        if !self.streams_ended() {
            PurgeView { phase: Phase::Running, ..self }
        } else if self.outstanding() > 0 {
            PurgeView { phase: Phase::Draining, ..self }
        } else {
            PurgeView { phase: Phase::Done, ..self }
        }
    }

    /// The run after a page of the stream `kind` arrived while that stream
    /// was being walked.
    pub open spec fn after_page(self, kind: ContentKind, page: PageView) -> PurgeView {
        let stream = self.stream(kind).accept(page);
        let tasks = self.tasks + tasks_for(self.condemned(kind, page));
        match kind {
            ContentKind::Posts => PurgeView { posts: stream, tasks, ..self }.settle(),
            ContentKind::Comments => PurgeView { comments: stream, tasks, ..self }.settle(),
        }
    }

    /// The run after the deletion named by `handle` came back.
    pub open spec fn after_deletion(
        self,
        handle: nat,
        outcome: Result<(), ErrorView>,
    ) -> PurgeView {
        PurgeView { tasks: resolved(self.tasks, handle, outcome), ..self }.settle()
    }

    /// Whether a page for the stream `kind` is awaited.
    pub open spec fn expects_page(self, kind: ContentKind) -> bool {
        self.phase == Phase::Running && !self.stream(kind).finished
    }

    /// Whether the deletion named by `handle` is awaited.
    pub open spec fn expects_deletion(self, handle: nat) -> bool {
        (self.phase == Phase::Running || self.phase == Phase::Draining) && awaits(
            self.tasks,
            handle,
        )
    }

    /// The run after `event`. An event that nothing awaits changes nothing.
    pub open spec fn next(self, event: EventView) -> PurgeView {
        match event {
            EventView::Started => if self.phase == Phase::Idle {
                PurgeView { phase: Phase::Authenticating, ..self }
            } else {
                self
            },
            EventView::Authenticated(result) => if self.phase == Phase::Authenticating {
                match result {
                    Ok(token) => PurgeView { phase: Phase::Running, token: Some(token), ..self },
                    Err(_) => PurgeView { phase: Phase::Failed, ..self },
                }
            } else {
                self
            },
            EventView::Page { kind, page } => if self.expects_page(kind) {
                self.after_page(kind, page)
            } else {
                self
            },
            EventView::Deleted { handle, outcome } => if self.expects_deletion(handle) {
                self.after_deletion(handle, outcome)
            } else {
                self
            },
        }
    }

    /// The end of the run, if `event` brings it about while the run is past
    /// authentication: the run reports success, whatever became of its
    /// deletions.
    pub open spec fn completion(self, event: EventView) -> Seq<ActionView> {
        if self.phase != Phase::Done && self.next(event).phase == Phase::Done {
            seq![ActionView::Finish(Ok(()))]
        } else {
            Seq::empty()
        }
    }

    /// What `event` asks the caller to do, in order. An event that nothing
    /// awaits asks for nothing.
    pub open spec fn actions(self, event: EventView) -> Seq<ActionView> {
        match event {
            EventView::Started => if self.phase == Phase::Idle {
                seq![ActionView::Authenticate]
            } else {
                Seq::empty()
            },
            EventView::Authenticated(result) => if self.phase == Phase::Authenticating {
                match result {
                    Ok(_) => continuation(self.comments) + continuation(self.posts),
                    Err(error) => seq![ActionView::Finish(Err(error))],
                }
            } else {
                Seq::empty()
            },
            EventView::Page { kind, page } => if self.expects_page(kind) {
                deletions(self.tasks.len(), self.condemned(kind, page)) + continuation(
                    self.stream(kind).accept(page),
                ) + self.completion(event)
            } else {
                Seq::empty()
            },
            EventView::Deleted { handle, outcome } => if self.expects_deletion(handle) {
                self.completion(event)
            } else {
                Seq::empty()
            },
        }
    }

    /// What `event` gives to log, in order.
    pub open spec fn records(self, event: EventView) -> Seq<RecordView> {
        match event {
            EventView::Page { kind, page } => if self.expects_page(kind) {
                self.stream(kind).reported(page) + exemptions_of(self.protected(kind, page))
            } else {
                Seq::empty()
            },
            EventView::Deleted { handle, outcome } => if self.expects_deletion(handle) {
                match resolution_record(self.tasks, handle, outcome) {
                    Some(record) => seq![record],
                    None => Seq::empty(),
                }
            } else {
                Seq::empty()
            },
            _ => Seq::empty(),
        }
    }
}

/// One run of the purge, told what happened and answering what to do.
pub struct PurgeOrchestrator {
    phase: Phase,
    exemptions: ExemptionSet,
    posts: ListingPaginator,
    comments: ListingPaginator,
    deleter: ConcurrentDeleter,
    token: Option<String>,
}

impl View for PurgeOrchestrator {
    type V = PurgeView;

    closed spec fn view(&self) -> PurgeView {
        PurgeView {
            phase: self.phase,
            exemptions: self.exemptions@,
            posts: self.posts@,
            comments: self.comments@,
            tasks: self.deleter@,
            token: self.token.deep_view(),
        }
    }
}

/// The reaction to an event that nothing awaits.
fn nothing() -> (reaction: Reaction)
    ensures
        reaction.actions.deep_view() == Seq::<ActionView>::empty(),
        reaction.records.deep_view() == Seq::<RecordView>::empty(),
{
    let reaction = Reaction { actions: Vec::new(), records: Vec::new() };
    assert(reaction.actions.deep_view() =~= Seq::<ActionView>::empty());
    assert(reaction.records.deep_view() =~= Seq::<RecordView>::empty());
    reaction
}

/// The phase that a run past authentication is in, given its streams and
/// its deletions.
fn settled(
    posts: &ListingPaginator,
    comments: &ListingPaginator,
    deleter: &ConcurrentDeleter,
) -> (phase: Phase)
    ensures
        phase == if !(posts@.finished && comments@.finished) {
            Phase::Running
        } else if pending_in(deleter@) > 0 {
            Phase::Draining
        } else {
            Phase::Done
        },
{
    if !(posts.is_finished() && comments.is_finished()) {
        Phase::Running
    } else if !deleter.is_drained() {
        Phase::Draining
    } else {
        Phase::Done
    }
}

/// Appends the end of the run to `actions` if the run is over.
fn complete(phase: Phase, actions: &mut Vec<Action>)
    ensures
        final(actions).deep_view() == old(actions).deep_view() + if phase == Phase::Done {
            seq![ActionView::Finish(Ok(()))]
        } else {
            Seq::empty()
        },
{
    match phase {
        Phase::Done => {
            let ghost before = *actions;
            let finish = Action::Finish(Ok(RegredditResult {  }));
            actions.push(finish);
            proof {
                lemma_deep_view_push(before, *actions, finish);
                assert(before.deep_view().push(finish.deep_view()) =~= before.deep_view()
                    + seq![ActionView::Finish(Ok(()))]);
            }
        },
        _ => {
            assert(actions.deep_view() =~= actions.deep_view() + Seq::<ActionView>::empty());
        },
    }
}

/// Appends the request for the next page of `stream` to `actions` if the
/// stream goes on.
fn carry_on(stream: &ListingPaginator, actions: &mut Vec<Action>)
    ensures
        final(actions).deep_view() == old(actions).deep_view() + continuation(stream@),
{
    match stream.next_request() {
        Some(control) => {
            let ghost before = *actions;
            let list = Action::ListPage { kind: stream.kind(), control };
            actions.push(list);
            proof {
                lemma_deep_view_push(before, *actions, list);
                assert(before.deep_view().push(list.deep_view()) =~= before.deep_view()
                    + continuation(stream@));
            }
        },
        None => {
            assert(actions.deep_view() =~= actions.deep_view() + Seq::<ActionView>::empty());
        },
    }
}

/// Dispatches a deletion for each of `items` that `exemptions` does not
/// protect, and logs each that it does.
fn dispatch_all(
    deleter: &mut ConcurrentDeleter,
    exemptions: &ExemptionSet,
    items: &Vec<ListingItem>,
    records: &mut Vec<Record>,
) -> (actions: Vec<Action>)
    ensures
        final(deleter)@ == old(deleter)@ + tasks_for(
            items.deep_view().filter(survives(exemptions@)),
        ),
        actions.deep_view() == deletions(
            old(deleter)@.len(),
            items.deep_view().filter(survives(exemptions@)),
        ),
        final(records).deep_view() == old(records).deep_view() + exemptions_of(
            items.deep_view().filter(spared(exemptions@)),
        ),
{
    let ghost booked = deleter@;
    let ghost logged = records.deep_view();
    let ghost all = items.deep_view();
    let ghost keep = survives(exemptions@);
    let ghost spare = spared(exemptions@);
    let mut actions: Vec<Action> = Vec::new();
    proof {
        reveal(Seq::filter);
        assert(all.take(0).filter(keep) =~= Seq::<ItemView>::empty());
        assert(all.take(0).filter(spare) =~= Seq::<ItemView>::empty());
        assert(deleter@ =~= booked + tasks_for(all.take(0).filter(keep)));
        assert(actions.deep_view() =~= deletions(booked.len(), all.take(0).filter(keep)));
        assert(records.deep_view() =~= logged + exemptions_of(all.take(0).filter(spare)));
    }
    let mut i: usize = 0;
    while i < items.len()
        invariant
            i <= items.len(),
            all == items.deep_view(),
            keep == survives(exemptions@),
            spare == spared(exemptions@),
            deleter@ == booked + tasks_for(all.take(i as int).filter(keep)),
            actions.deep_view() == deletions(booked.len(), all.take(i as int).filter(keep)),
            records.deep_view() == logged + exemptions_of(all.take(i as int).filter(spare)),
        decreases items.len() - i,
    {
        let item = &items[i];
        let ghost seen = all.take(i as int);
        let ghost kept = seen.filter(keep);
        let ghost freed = seen.filter(spare);
        proof {
            all.lemma_take_succ_push(i as int);
            seen.lemma_filter_push(all[i as int], keep);
            seen.lemma_filter_push(all[i as int], spare);
        }
        if is_exempt(item.category.as_str(), exemptions) {
            let ghost before = *records;
            let record = Record::ItemExempted {
                item: ListingItem {
                    id: item.id.clone(),
                    category: item.category.clone(),
                    kind: item.kind,
                },
            };
            records.push(record);
            proof {
                lemma_deep_view_push(before, *records, record);
                assert(logged + exemptions_of(freed.push(all[i as int])) =~= (logged
                    + exemptions_of(freed)).push(record.deep_view()));
            }
        } else {
            let ghost before = actions;
            let ghost tasks = deleter@;
            let handle = deleter.dispatch(item.id.clone(), item.kind);
            let delete = Action::Delete { handle, id: item.id.clone() };
            actions.push(delete);
            proof {
                lemma_deep_view_push(before, actions, delete);
                assert(booked + tasks_for(kept.push(all[i as int])) =~= tasks.push(
                    TaskView::pending(all[i as int].id, all[i as int].kind),
                ));
                assert(deletions(booked.len(), kept.push(all[i as int])) =~= deletions(
                    booked.len(),
                    kept,
                ).push(delete.deep_view()));
            }
        }
        i = i + 1;
    }
    proof {
        all.lemma_take_len();
    }
    actions
}

impl PurgeOrchestrator {
    /// The run is in a state a run can be in.
    #[verifier::type_invariant]
    spec fn sound(self) -> bool {
        self@.wf()
    }

    /// A run that has not begun, sparing `exemptions` and walking both
    /// streams in pages of `limit` items.
    pub fn new(exemptions: ExemptionSet, limit: u32) -> (run: PurgeOrchestrator)
        ensures
            run@ == PurgeView::initial(exemptions@, limit),
            run@.wf(),
    {
        PurgeOrchestrator {
            phase: Phase::Idle,
            exemptions,
            posts: ListingPaginator::new(ContentKind::Posts, limit),
            comments: ListingPaginator::new(ContentKind::Comments, limit),
            deleter: ConcurrentDeleter::new(),
            token: None,
        }
    }

    /// The run that `p` asks for: it spares the communities on the
    /// whitelist of the settings and walks both streams in pages of
    /// [`LISTING_LIMIT`] items.
    pub fn for_params(p: &RegredditParams) -> (run: PurgeOrchestrator)
        ensures
            run@ == PurgeView::initial(p.settings.whitelist.deep_view().to_set(), LISTING_LIMIT),
            run@.wf(),
    {
        PurgeOrchestrator::new(ExemptionSet::new(&p.settings.whitelist), LISTING_LIMIT)
    }

    /// Where the run stands.
    pub fn phase(&self) -> (phase: Phase)
        ensures
            phase == self@.phase,
    {
        self.phase
    }

    /// The access token, once authentication has succeeded.
    pub fn access_token(&self) -> (token: Option<&str>)
        ensures
            token.deep_view() == self@.token,
    {
        match &self.token {
            Some(token) => Some(token.as_str()),
            None => None,
        }
    }

    /// The number of deletions dispatched so far.
    pub fn dispatched(&self) -> (count: usize)
        ensures
            count == self@.tasks.len(),
    {
        self.deleter.dispatched()
    }

    /// The deletion named by `handle`; nothing for a handle that was never
    /// handed out.
    pub fn task(&self, handle: usize) -> (task: Option<&DeletionTask>)
        ensures
            task.deep_view() == if handle < self@.tasks.len() {
                Some(self@.tasks[handle as int])
            } else {
                None
            },
    {
        self.deleter.task(handle)
    }

    /// The number of deletions that are still out.
    pub fn outstanding(&self) -> (count: usize)
        ensures
            count == self@.outstanding(),
    {
        self.deleter.outstanding()
    }

    /// Whether the stream `kind` has ended.
    pub fn stream_finished(&self, kind: ContentKind) -> (finished: bool)
        ensures
            finished == self@.stream(kind).finished,
    {
        match kind {
            ContentKind::Posts => self.posts.is_finished(),
            ContentKind::Comments => self.comments.is_finished(),
        }
    }

    /// Takes the run out of `self`, which is left with a run that has not
    /// begun.
    fn take(&mut self) -> (taken: PurgeOrchestrator)
        ensures
            taken@ == old(self)@,
    {
        let mut taken = PurgeOrchestrator::new(ExemptionSet::new(&Vec::new()), 0);
        std::mem::swap(self, &mut taken);
        taken
    }

    /// The run after `event`, and the answer to it.
    fn advance(self, event: Event) -> (after: (PurgeOrchestrator, Reaction))
        ensures
            after.0@ == self@.next(event.deep_view()),
            after.0@.wf(),
            after.1.actions.deep_view() == self@.actions(event.deep_view()),
            after.1.records.deep_view() == self@.records(event.deep_view()),
    {
        proof {
            use_type_invariant(&self);
        }
        let ghost start = self@;
        let PurgeOrchestrator { phase, exemptions, posts, comments, deleter, token } = self;
        let mut posts = posts;
        let mut comments = comments;
        let mut deleter = deleter;
        match (phase, event) {
            (Phase::Idle, Event::Started) => {
                let mut reaction = nothing();
                reaction.actions.push(Action::Authenticate);
                assert(reaction.actions.deep_view() =~= seq![ActionView::Authenticate]);
                (
                    PurgeOrchestrator {
                        phase: Phase::Authenticating,
                        exemptions,
                        posts,
                        comments,
                        deleter,
                        token,
                    },
                    reaction,
                )
            },
            (Phase::Authenticating, Event::Authenticated(Ok(granted))) => {
                let mut actions: Vec<Action> = Vec::new();
                assert(actions.deep_view() =~= Seq::<ActionView>::empty());
                carry_on(&comments, &mut actions);
                carry_on(&posts, &mut actions);
                assert(actions.deep_view() =~= continuation(start.comments) + continuation(
                    start.posts,
                ));
                let mut reaction = nothing();
                reaction.actions = actions;
                (
                    PurgeOrchestrator {
                        phase: Phase::Running,
                        exemptions,
                        posts,
                        comments,
                        deleter,
                        token: Some(granted.access_token),
                    },
                    reaction,
                )
            },
            (Phase::Authenticating, Event::Authenticated(Err(error))) => {
                let mut reaction = nothing();
                reaction.actions.push(Action::Finish(Err(error)));
                assert(reaction.actions.deep_view() =~= seq![ActionView::Finish(Err(error@))]);
                (
                    PurgeOrchestrator {
                        phase: Phase::Failed,
                        exemptions,
                        posts,
                        comments,
                        deleter,
                        token,
                    },
                    reaction,
                )
            },
            (Phase::Running, Event::Page { kind, response }) => {
                let awaited = match kind {
                    ContentKind::Posts => !posts.is_finished(),
                    ContentKind::Comments => !comments.is_finished(),
                };
                if awaited {
                    let batch = match kind {
                        ContentKind::Posts => posts.accept(response),
                        ContentKind::Comments => comments.accept(response),
                    };
                    let Batch { items, records } = batch;
                    let mut records = records;
                    let mut actions = dispatch_all(&mut deleter, &exemptions, &items, &mut records);
                    match kind {
                        ContentKind::Posts => carry_on(&posts, &mut actions),
                        ContentKind::Comments => carry_on(&comments, &mut actions),
                    }
                    let phase = settled(&posts, &comments, &deleter);
                    complete(phase, &mut actions);
                    (
                        PurgeOrchestrator { phase, exemptions, posts, comments, deleter, token },
                        Reaction { actions, records },
                    )
                } else {
                    (
                        PurgeOrchestrator { phase, exemptions, posts, comments, deleter, token },
                        nothing(),
                    )
                }
            },
            (Phase::Running, Event::Deleted { handle, outcome })
            | (Phase::Draining, Event::Deleted { handle, outcome }) => {
                match deleter.resolve(handle, outcome) {
                    Some(record) => {
                        let mut reaction = nothing();
                        reaction.records.push(record);
                        assert(reaction.records.deep_view() =~= seq![record.deep_view()]);
                        let phase = settled(&posts, &comments, &deleter);
                        let mut actions: Vec<Action> = Vec::new();
                        assert(actions.deep_view() =~= Seq::<ActionView>::empty());
                        complete(phase, &mut actions);
                        reaction.actions = actions;
                        (
                            PurgeOrchestrator {
                                phase,
                                exemptions,
                                posts,
                                comments,
                                deleter,
                                token,
                            },
                            reaction,
                        )
                    },
                    None => (
                        PurgeOrchestrator { phase, exemptions, posts, comments, deleter, token },
                        nothing(),
                    ),
                }
            },
            _ => (
                PurgeOrchestrator { phase, exemptions, posts, comments, deleter, token },
                nothing(),
            ),
        }
    }

    /// Tells the run what happened. The answer says what to do next and
    /// what to log. An event that nothing awaits (a page for a stream that
    /// has ended, a deletion that is not out, anything after the end of the
    /// run) changes nothing and asks for nothing.
    pub fn step(&mut self, event: Event) -> (reaction: Reaction)
        ensures
            final(self)@ == old(self)@.next(event.deep_view()),
            final(self)@.wf(),
            reaction.actions.deep_view() == old(self)@.actions(event.deep_view()),
            reaction.records.deep_view() == old(self)@.records(event.deep_view()),
    {
        let (after, reaction) = self.take().advance(event);
        *self = after;
        reaction
    }
}

} // verus!

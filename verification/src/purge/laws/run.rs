//! What holds of every run, proved from the definition of the
//! orchestrator.

use crate::error::ErrorView;
use crate::purge::deleter::{awaits, is_pending, pending_in, resolved, TaskStatus, TaskView};
use crate::purge::filter::survives;
use crate::purge::item::{of_kind, ContentKind, ItemView, PageView};
use crate::purge::orchestrator::{
    continuation, deletions, tasks_for, ActionView, EventView, Phase, PurgeView,
};
use crate::purge::paginator::PaginatorView;
use vstd::prelude::*;

verus! {

/// The run after `events`, one after the other.
pub open spec fn run(start: PurgeView, events: Seq<EventView>) -> PurgeView
    decreases events.len(),
{
    if events.len() == 0 {
        start
    } else {
        run(start, events.drop_last()).next(events.last())
    }
}

/// Everything a run was asked to do in answer to `events`, in order.
pub open spec fn trace(start: PurgeView, events: Seq<EventView>) -> Seq<ActionView>
    decreases events.len(),
{
    if events.len() == 0 {
        Seq::empty()
    } else {
        trace(start, events.drop_last()) + run(start, events.drop_last()).actions(events.last())
    }
}

/// A run through `first` and then `then` is a run through `then` from
/// where `first` led.
proof fn lemma_run_in_two(start: PurgeView, first: Seq<EventView>, then: Seq<EventView>)
    ensures
        run(start, first + then) == run(run(start, first), then),
        trace(start, first + then) == trace(start, first) + trace(run(start, first), then),
    decreases then.len(),
{
    if then.len() == 0 {
        assert(first + then =~= first);
        assert(trace(start, first) + Seq::<ActionView>::empty() =~= trace(start, first));
    } else {
        lemma_run_in_two(start, first, then.drop_last());
        assert((first + then).drop_last() =~= first + then.drop_last());
        assert((first + then).last() == then.last());
        let middle = run(start, first);
        assert(trace(start, first) + (trace(middle, then.drop_last()) + run(
            middle,
            then.drop_last(),
        ).actions(then.last())) =~= (trace(start, first) + trace(middle, then.drop_last())) + run(
            middle,
            then.drop_last(),
        ).actions(then.last()));
    }
}

/// A run through the first `n + 1` of `events` is a run through the first
/// `n` and then one step.
proof fn lemma_run_one_more(start: PurgeView, events: Seq<EventView>, n: int)
    requires
        0 <= n < events.len(),
    ensures
        run(start, events.take(n + 1)) == run(start, events.take(n)).next(events[n]),
        trace(start, events.take(n + 1)) == trace(start, events.take(n)) + run(
            start,
            events.take(n),
        ).actions(events[n]),
{
    assert(events.take(n + 1).drop_last() =~= events.take(n));
    assert(events.take(n + 1).last() == events[n]);
}

/// Where no task is counted as unresolved, no handle names an unresolved
/// task.
proof fn lemma_none_awaited(tasks: Seq<TaskView>)
    requires
        pending_in(tasks) == 0,
    ensures
        forall|handle: nat| !awaits(tasks, handle),
{
    assert forall|handle: nat| !awaits(tasks, handle) by {
        if awaits(tasks, handle) {
            tasks.lemma_filter_contains(is_pending(), handle as int);
        }
    }
}

/// One step takes a state a run can be in to a state a run can be in.
pub proof fn lemma_next_keeps_wf(state: PurgeView, event: EventView)
    requires
        state.wf(),
    ensures
        state.next(event).wf(),
{
}

/// The end of a run is only ever asked for by the step that ends it.
proof fn lemma_finish_ends(state: PurgeView, event: EventView)
    requires
        state.wf(),
        state.actions(event).contains(ActionView::Finish(Ok(()))),
    ensures
        state.phase != Phase::Done,
        state.next(event).phase == Phase::Done,
{
    let actions = state.actions(event);
    let k = choose|k: int| 0 <= k < actions.len() && actions[k] == ActionView::Finish(Ok(()));
    assert(actions[k] == ActionView::Finish(Ok(())));
}

/// A run that starts in a state a run can be in stays in one.
pub proof fn lemma_run_keeps_wf(start: PurgeView, events: Seq<EventView>)
    requires
        start.wf(),
    ensures
        run(start, events).wf(),
    decreases events.len(),
{
    if events.len() > 0 {
        lemma_run_keeps_wf(start, events.drop_last());
        lemma_next_keeps_wf(run(start, events.drop_last()), events.last());
    }
}

/// Draining completeness. Whatever happens to a run, it is `Done` only when
/// both streams have ended and no dispatched deletion is unresolved, and it
/// is told to finish with success only by the step that takes it there.
pub proof fn law_draining_completeness(start: PurgeView, events: Seq<EventView>)
    requires
        start.wf(),
    ensures
        run(start, events).wf(),
        run(start, events).phase == Phase::Done ==> run(start, events).streams_ended() && forall|
            handle: nat,
        |
            !awaits(run(start, events).tasks, handle),
        forall|n: int|
            0 <= n < events.len() && (#[trigger] run(start, events.take(n))).actions(
                events[n],
            ).contains(ActionView::Finish(Ok(()))) ==> run(start, events.take(n + 1)).phase
                == Phase::Done,
{
    lemma_run_keeps_wf(start, events);
    if run(start, events).phase == Phase::Done {
        lemma_none_awaited(run(start, events).tasks);
    }
    assert forall|n: int|
        0 <= n < events.len() && (#[trigger] run(start, events.take(n))).actions(
            events[n],
        ).contains(ActionView::Finish(Ok(()))) implies run(start, events.take(n + 1)).phase
        == Phase::Done by {
        lemma_run_keeps_wf(start, events.take(n));
        lemma_finish_ends(run(start, events.take(n)), events[n]);
        lemma_run_one_more(start, events, n);
    }
}

/// A run through `first` and then `later` is a run through `later` from
/// where the one step led.
proof fn lemma_run_first(start: PurgeView, first: EventView, later: Seq<EventView>)
    ensures
        run(start, seq![first] + later) == run(start.next(first), later),
        trace(start, seq![first] + later) == start.actions(first) + trace(
            start.next(first),
            later,
        ),
{
    let one = seq![first];
    assert(one.drop_last() =~= Seq::<EventView>::empty());
    assert(one.last() == first);
    assert(run(start, one.drop_last()) == start);
    assert(trace(start, one.drop_last()) == Seq::<ActionView>::empty());
    assert(trace(start, one) =~= start.actions(first));
    lemma_run_in_two(start, one, later);
}

/// A run that failed stays as it is and asks for nothing.
proof fn lemma_failed_is_final(failed: PurgeView, events: Seq<EventView>)
    requires
        failed.phase == Phase::Failed,
    ensures
        run(failed, events) == failed,
        trace(failed, events) == Seq::<ActionView>::empty(),
    decreases events.len(),
{
    if events.len() > 0 {
        lemma_failed_is_final(failed, events.drop_last());
        assert(trace(failed, events) =~= Seq::<ActionView>::empty());
    }
}

/// Fatal short-circuit. Where authentication fails, the run is asked to
/// authenticate and then to finish with the error of the authentication,
/// and for nothing else, whatever happens later: no page is ever asked for
/// and no deletion is ever dispatched.
pub proof fn law_fatal_short_circuit(start: PurgeView, error: ErrorView, later: Seq<EventView>)
    requires
        start.wf(),
        start.phase == Phase::Idle,
    ensures
        trace(
            start,
            seq![EventView::Started, EventView::Authenticated(Err(error))] + later,
        ) == seq![ActionView::Authenticate, ActionView::Finish(Err(error))],
        run(
            start,
            seq![EventView::Started, EventView::Authenticated(Err(error))] + later,
        ).phase == Phase::Failed,
        run(
            start,
            seq![EventView::Started, EventView::Authenticated(Err(error))] + later,
        ).tasks.len() == 0,
{
    let begin = EventView::Started;
    let fail = EventView::Authenticated(Err(error));
    let asked = start.next(begin);
    let failed = asked.next(fail);
    assert(seq![begin, fail] + later =~= seq![begin] + (seq![fail] + later));
    lemma_run_first(start, begin, seq![fail] + later);
    lemma_run_first(asked, fail, later);
    lemma_failed_is_final(failed, later);
    assert(start.actions(begin) + (asked.actions(fail) + Seq::<ActionView>::empty()) =~= seq![
        ActionView::Authenticate,
        ActionView::Finish(Err(error)),
    ]);
}

/// Exemption correctness, page by page. Of the items that a page adds to
/// a stream, exactly those that no exemption protects reach the deleter:
/// each gets one task and one deletion, in order, and the run is asked for
/// no other deletion.
pub proof fn law_exemption_correctness(state: PurgeView, kind: ContentKind, page: PageView)
    requires
        state.expects_page(kind),
    ensures
        forall|item: ItemView| #[trigger]
            state.condemned(kind, page).contains(item) <==> state.stream(kind).yielded(
                page,
            ).contains(item) && !state.exemptions.contains(item.category),
        state.next(EventView::Page { kind, page }).tasks == state.tasks + tasks_for(
            state.condemned(kind, page),
        ),
        forall|k: int|
            0 <= k < state.condemned(kind, page).len() ==> #[trigger] state.actions(
                EventView::Page { kind, page },
            )[k] == (ActionView::Delete {
                handle: (state.tasks.len() + k) as nat,
                id: state.condemned(kind, page)[k].id,
            }),
        forall|k: int|
            state.condemned(kind, page).len() <= k < state.actions(
                EventView::Page { kind, page },
            ).len() ==> !(#[trigger] state.actions(EventView::Page { kind, page })[k] is Delete),
{
    let yielded = state.stream(kind).yielded(page);
    let keep = survives(state.exemptions);
    let condemned = state.condemned(kind, page);
    assert forall|item: ItemView| #[trigger]
        condemned.contains(item) <==> yielded.contains(item) && !state.exemptions.contains(
            item.category,
        ) by {
        if condemned.contains(item) {
            let k = choose|k: int| 0 <= k < condemned.len() && condemned[k] == item;
            yielded.lemma_filter_pred(keep, k);
            yielded.lemma_filter_contains_rev(keep, item);
        }
        if yielded.contains(item) && !state.exemptions.contains(item.category) {
            let j = choose|j: int| 0 <= j < yielded.len() && yielded[j] == item;
            yielded.lemma_filter_contains(keep, j);
        }
    }
}

/// Whether `item` is an item of the stream that `event` brought a page of.
pub open spec fn arrived_with(event: EventView, item: ItemView) -> bool {
    match event {
        EventView::Page { kind, page: PageView::Entries(entries) } => item.kind == kind
            && entries.contains(Some(item)),
        _ => false,
    }
}

/// Whether some page among `events` brought `item`.
pub open spec fn arrived(events: Seq<EventView>, item: ItemView) -> bool {
    exists|n: int| 0 <= n < events.len() && #[trigger] arrived_with(events[n], item)
}

/// Whether a deletion of `id` is called for: some page among `events`
/// brought an item with that handle which `exemptions` does not protect.
pub open spec fn called_for(
    exemptions: Set<Seq<char>>,
    events: Seq<EventView>,
    id: Seq<char>,
) -> bool {
    exists|item: ItemView| #[trigger]
        arrived(events, item) && item.id == id && !exemptions.contains(item.category)
}

/// A run spares throughout what it spared at the start.
proof fn lemma_exemptions_stay(start: PurgeView, events: Seq<EventView>)
    ensures
        run(start, events).exemptions == start.exemptions,
    decreases events.len(),
{
    if events.len() > 0 {
        lemma_exemptions_stay(start, events.drop_last());
    }
}

/// What is called for by some events is called for by more events.
proof fn lemma_called_for_later(
    exemptions: Set<Seq<char>>,
    events: Seq<EventView>,
    id: Seq<char>,
)
    requires
        events.len() > 0,
        called_for(exemptions, events.drop_last(), id),
    ensures
        called_for(exemptions, events, id),
{
    let before = events.drop_last();
    let item = choose|item: ItemView| #[trigger]
        arrived(before, item) && item.id == id && !exemptions.contains(item.category);
    let n = choose|n: int| 0 <= n < before.len() && #[trigger] arrived_with(before[n], item);
    assert(arrived_with(events[n], item));
    assert(arrived(events, item));
}

/// Each deletion that one step asks for is called for by the page that the
/// step brought.
proof fn lemma_step_deletes_what_is_called_for(state: PurgeView, event: EventView, k: int)
    requires
        state.wf(),
        0 <= k < state.actions(event).len(),
        state.actions(event)[k] is Delete,
    ensures
        exists|item: ItemView| #[trigger]
            arrived_with(event, item) && item.id == state.actions(event)[k]->id
                && !state.exemptions.contains(item.category),
{
    match event {
        EventView::Page { kind, page } => {
            law_exemption_correctness(state, kind, page);
            let condemned = state.condemned(kind, page);
            let item = condemned[k];
            assert(condemned.contains(item));
            match page {
                PageView::Entries(entries) => {
                    entries.lemma_filter_map_contains(of_kind(kind), item);
                    let entry = choose|entry: Option<ItemView>| #[trigger]
                        entries.contains(entry) && of_kind(kind)(entry) == Some(item);
                    assert(entry == Some(item));
                    assert(arrived_with(event, item));
                },
                _ => {
                    assert(state.stream(kind).yielded(page) =~= Seq::<ItemView>::empty());
                },
            }
        },
        _ => {},
    }
}

/// Exemption correctness, over a whole run. Every deletion that a run is
/// ever asked for is the deletion of an item that some page brought and
/// that no exemption protects. So no deletion is ever asked for on account
/// of an item in an exempted community.
pub proof fn law_deletions_are_called_for(start: PurgeView, events: Seq<EventView>)
    requires
        start.wf(),
    ensures
        forall|k: int|
            0 <= k < trace(start, events).len() && (#[trigger] trace(start, events)[k]) is Delete
                ==> called_for(start.exemptions, events, trace(start, events)[k]->id),
    decreases events.len(),
{
    if events.len() > 0 {
        let before = events.drop_last();
        let state = run(start, before);
        law_deletions_are_called_for(start, before);
        lemma_exemptions_stay(start, before);
        lemma_run_keeps_wf(start, before);
        assert forall|k: int|
            0 <= k < trace(start, events).len() && (#[trigger] trace(start, events)[k]) is Delete
            implies called_for(start.exemptions, events, trace(start, events)[k]->id) by {
            let earlier = trace(start, before).len();
            if k < earlier {
                assert(trace(start, events)[k] == trace(start, before)[k]);
                lemma_called_for_later(start.exemptions, events, trace(start, events)[k]->id);
            } else {
                assert(trace(start, events)[k] == state.actions(events.last())[k - earlier]);
                lemma_step_deletes_what_is_called_for(state, events.last(), k - earlier);
                let item = choose|item: ItemView| #[trigger]
                    arrived_with(events.last(), item) && item.id == state.actions(
                        events.last(),
                    )[k - earlier]->id && !state.exemptions.contains(item.category);
                assert(arrived_with(events[events.len() - 1], item));
                assert(arrived(events, item));
            }
        }
    }
}

/// Whether the handles of the items that `events` brought tell their
/// communities apart: no handle names an item of one community in one
/// place and an item of another community in another.
pub open spec fn handles_tell_apart(events: Seq<EventView>) -> bool {
    forall|one: ItemView, other: ItemView|
        #![trigger arrived(events, one), arrived(events, other)]
        arrived(events, one) && arrived(events, other) && one.id == other.id ==> one.category
            == other.category
}

/// Exempt items are never deleted. Where handles tell communities apart,
/// no deletion that a run is ever asked for names an item that some page
/// brought from an exempted community.
pub proof fn law_exempt_items_are_never_deleted(start: PurgeView, events: Seq<EventView>)
    requires
        start.wf(),
        handles_tell_apart(events),
    ensures
        forall|k: int, item: ItemView|
            #![trigger trace(start, events)[k], arrived(events, item)]
            0 <= k < trace(start, events).len() && trace(start, events)[k] is Delete && arrived(
                events,
                item,
            ) && start.exemptions.contains(item.category) ==> trace(start, events)[k]->id
                != item.id,
{
    law_deletions_are_called_for(start, events);
    assert forall|k: int, item: ItemView|
        #![trigger trace(start, events)[k], arrived(events, item)]
        0 <= k < trace(start, events).len() && trace(start, events)[k] is Delete && arrived(
            events,
            item,
        ) && start.exemptions.contains(item.category) implies trace(start, events)[k]->id
        != item.id by {
        let id = trace(start, events)[k]->id;
        assert(called_for(start.exemptions, events, id));
        let cause = choose|cause: ItemView| #[trigger]
            arrived(events, cause) && cause.id == id && !start.exemptions.contains(
                cause.category,
            );
        if id == item.id {
            assert(cause.category == item.category);
        }
    }
}

/// Whether two tasks are alike but for how they went, if they are
/// resolved: the same item, unresolved in the one where unresolved in the
/// other.
pub open spec fn alike_task(one: TaskView, other: TaskView) -> bool {
    &&& one.id == other.id
    &&& one.kind == other.kind
    &&& one.status == TaskStatus::Pending <==> other.status == TaskStatus::Pending
}

/// Whether two lists of tasks are alike but for how the resolved ones went.
pub open spec fn alike_tasks(one: Seq<TaskView>, other: Seq<TaskView>) -> bool {
    &&& one.len() == other.len()
    &&& forall|h: int| 0 <= h < one.len() ==> alike_task(#[trigger] one[h], other[h])
}

/// Whether two runs are alike but for how their resolved deletions went.
pub open spec fn alike(one: PurgeView, other: PurgeView) -> bool {
    &&& one.phase == other.phase
    &&& one.exemptions == other.exemptions
    &&& one.posts == other.posts
    &&& one.comments == other.comments
    &&& one.token == other.token
    &&& alike_tasks(one.tasks, other.tasks)
}

/// Whether two events are the same but for how a deletion went.
pub open spec fn same_but_outcome(one: EventView, other: EventView) -> bool {
    match one {
        EventView::Deleted { handle, outcome } => other is Deleted && other->handle == handle,
        _ => one == other,
    }
}

/// Lists of tasks that are alike have equally many unresolved tasks.
proof fn lemma_alike_pending(one: Seq<TaskView>, other: Seq<TaskView>)
    requires
        alike_tasks(one, other),
    ensures
        pending_in(one) == pending_in(other),
    decreases one.len(),
{
    reveal(Seq::filter);
    if one.len() > 0 {
        assert(one.drop_last().len() == other.drop_last().len());
        assert forall|h: int| 0 <= h < one.drop_last().len() implies alike_task(
            #[trigger] one.drop_last()[h],
            other.drop_last()[h],
        ) by {
            assert(alike_task(one[h], other[h]));
        }
        lemma_alike_pending(one.drop_last(), other.drop_last());
        assert(alike_task(one[one.len() - 1], other[other.len() - 1]));
    }
}

/// Runs that are alike settle in the same phase.
proof fn lemma_alike_settle(one: PurgeView, other: PurgeView)
    requires
        alike(
            PurgeView { phase: Phase::Running, ..one },
            PurgeView { phase: Phase::Running, ..other },
        ),
    ensures
        alike(one.settle(), other.settle()),
{
    lemma_alike_pending(one.tasks, other.tasks);
}

/// Alike runs answer events that are the same but for how a deletion went
/// alike: they ask for the same and are alike afterwards.
proof fn lemma_alike_step(one: PurgeView, other: PurgeView, first: EventView, second: EventView)
    requires
        alike(one, other),
        same_but_outcome(first, second),
    ensures
        alike(one.next(first), other.next(second)),
        one.actions(first) == other.actions(second),
{
    match first {
        EventView::Page { kind, page } => {
            if one.expects_page(kind) {
                let added = tasks_for(one.condemned(kind, page));
                let stream = one.stream(kind).accept(page);
                let left = match kind {
                    ContentKind::Posts => PurgeView {
                        posts: stream,
                        tasks: one.tasks + added,
                        ..one
                    },
                    ContentKind::Comments => PurgeView {
                        comments: stream,
                        tasks: one.tasks + added,
                        ..one
                    },
                };
                let right = match kind {
                    ContentKind::Posts => PurgeView {
                        posts: stream,
                        tasks: other.tasks + added,
                        ..other
                    },
                    ContentKind::Comments => PurgeView {
                        comments: stream,
                        tasks: other.tasks + added,
                        ..other
                    },
                };
                assert(alike_tasks(left.tasks, right.tasks)) by {
                    assert forall|h: int| 0 <= h < left.tasks.len() implies alike_task(
                        #[trigger] left.tasks[h],
                        right.tasks[h],
                    ) by {
                        if h < one.tasks.len() {
                            assert(alike_task(one.tasks[h], other.tasks[h]));
                        }
                    }
                }
                lemma_alike_settle(left, right);
            }
        },
        EventView::Deleted { handle, outcome } => {
            let other_outcome = second->outcome;
            if one.expects_deletion(handle) {
                assert(alike_task(one.tasks[handle as int], other.tasks[handle as int]));
                assert(awaits(other.tasks, handle));
                let left = PurgeView { tasks: resolved(one.tasks, handle, outcome), ..one };
                let right = PurgeView {
                    tasks: resolved(other.tasks, handle, other_outcome),
                    ..other
                };
                assert(alike_tasks(left.tasks, right.tasks)) by {
                    assert forall|h: int| 0 <= h < left.tasks.len() implies alike_task(
                        #[trigger] left.tasks[h],
                        right.tasks[h],
                    ) by {
                        assert(alike_task(one.tasks[h], other.tasks[h]));
                    }
                }
                lemma_alike_settle(left, right);
            } else {
                if handle < one.tasks.len() {
                    assert(alike_task(one.tasks[handle as int], other.tasks[handle as int]));
                }
            }
        },
        _ => {},
    }
}

/// Isolation. Take two runs from the same start through the same events,
/// but for how each deletion went: whatever fails in the one may succeed
/// in the other. The two runs are asked for exactly the same, in the same
/// order: the same pages, the same deletions, and the same end with the
/// same result. After every step they stand in the same phase with the
/// same streams, the same tasks unresolved and the same tasks resolved.
pub proof fn law_isolation(start: PurgeView, one: Seq<EventView>, other: Seq<EventView>)
    requires
        one.len() == other.len(),
        forall|n: int| 0 <= n < one.len() ==> same_but_outcome(#[trigger] one[n], other[n]),
    ensures
        trace(start, one) == trace(start, other),
        alike(run(start, one), run(start, other)),
    decreases one.len(),
{
    if one.len() > 0 {
        assert forall|n: int| 0 <= n < one.drop_last().len() implies same_but_outcome(
            #[trigger] one.drop_last()[n],
            other.drop_last()[n],
        ) by {
            assert(same_but_outcome(one[n], other[n]));
        }
        law_isolation(start, one.drop_last(), other.drop_last());
        assert(same_but_outcome(one[one.len() - 1], other[one.len() - 1]));
        lemma_alike_step(
            run(start, one.drop_last()),
            run(start, other.drop_last()),
            one.last(),
            other.last(),
        );
    }
}

/// A deletion that comes back resolves its own task and touches nothing
/// else: every other task, both streams and the access token are as they
/// were, and no new call is asked for but, at most, the end of the run.
pub proof fn law_deletion_touches_one_task(
    state: PurgeView,
    handle: nat,
    outcome: Result<(), ErrorView>,
)
    ensures
        ({
            let event = EventView::Deleted { handle, outcome };
            let after = state.next(event);
            &&& after.tasks.len() == state.tasks.len()
            &&& forall|h: int|
                0 <= h < state.tasks.len() && h != handle ==> #[trigger] after.tasks[h]
                    == state.tasks[h]
            &&& forall|h: int|
                0 <= h < state.tasks.len() ==> (#[trigger] after.tasks[h]).id == state.tasks[h].id
                    && after.tasks[h].kind == state.tasks[h].kind
            &&& after.posts == state.posts
            &&& after.comments == state.comments
            &&& after.token == state.token
            &&& after.exemptions == state.exemptions
            &&& forall|k: int|
                0 <= k < state.actions(event).len() ==> #[trigger] state.actions(event)[k]
                    == ActionView::Finish(Ok(()))
        }),
{
}

/// Once a run is past authentication it stays past it, and the only
/// result it is ever told to finish with is success.
pub proof fn law_success_once_authenticated(start: PurgeView, events: Seq<EventView>)
    requires
        start.phase == Phase::Running || start.phase == Phase::Draining || start.phase
            == Phase::Done,
    ensures
        run(start, events).phase == Phase::Running || run(start, events).phase == Phase::Draining
            || run(start, events).phase == Phase::Done,
        forall|k: int|
            0 <= k < trace(start, events).len() && (#[trigger] trace(start, events)[k]) is Finish
                ==> trace(start, events)[k] == ActionView::Finish(Ok(())),
    decreases events.len(),
{
    if events.len() > 0 {
        let before = events.drop_last();
        law_success_once_authenticated(start, before);
        let state = run(start, before);
        let event = events.last();
        let earlier = trace(start, before).len();
        assert forall|k: int|
            0 <= k < trace(start, events).len() && (#[trigger] trace(start, events)[k]) is Finish
            implies trace(start, events)[k] == ActionView::Finish(Ok(())) by {
            if k < earlier {
                assert(trace(start, events)[k] == trace(start, before)[k]);
            } else {
                assert(trace(start, events)[k] == state.actions(event)[k - earlier]);
            }
        }
    }
}

/// A step drops no task and leaves each task its item.
proof fn lemma_tasks_persist(state: PurgeView, event: EventView)
    ensures
        state.tasks.len() <= state.next(event).tasks.len(),
        forall|h: int|
            0 <= h < state.tasks.len() ==> (#[trigger] state.next(event).tasks[h]).id
                == state.tasks[h].id,
{
}

/// Each deletion that one step asks for is the deletion of a task that the
/// step put on the books, under the handle of that task.
proof fn lemma_step_books_its_deletions(state: PurgeView, event: EventView, k: int)
    requires
        0 <= k < state.actions(event).len(),
        state.actions(event)[k] is Delete,
    ensures
        state.tasks.len() <= state.actions(event)[k]->handle < state.next(event).tasks.len(),
        state.next(event).tasks[state.actions(event)[k]->handle as int].id == state.actions(
            event,
        )[k]->id,
{
    match event {
        EventView::Page { kind, page } => {
            law_exemption_correctness(state, kind, page);
        },
        _ => {},
    }
}

/// A run drops no task and leaves each task its item.
proof fn lemma_tasks_stay(start: PurgeView, events: Seq<EventView>)
    ensures
        start.tasks.len() <= run(start, events).tasks.len(),
        forall|h: int|
            0 <= h < start.tasks.len() ==> (#[trigger] run(start, events).tasks[h]).id
                == start.tasks[h].id,
    decreases events.len(),
{
    if events.len() > 0 {
        lemma_tasks_stay(start, events.drop_last());
        lemma_tasks_persist(run(start, events.drop_last()), events.last());
    }
}

/// Each deletion that a run was asked for is the deletion of one of its
/// tasks, under the handle of that task.
proof fn lemma_deletion_is_on_the_books(start: PurgeView, events: Seq<EventView>, k: int)
    requires
        0 <= k < trace(start, events).len(),
        trace(start, events)[k] is Delete,
    ensures
        start.tasks.len() <= trace(start, events)[k]->handle < run(start, events).tasks.len(),
        run(start, events).tasks[trace(start, events)[k]->handle as int].id == trace(
            start,
            events,
        )[k]->id,
    decreases events.len(),
{
    let before = events.drop_last();
    let state = run(start, before);
    let event = events.last();
    let earlier = trace(start, before).len();
    if k < earlier {
        assert(trace(start, events)[k] == trace(start, before)[k]);
        lemma_deletion_is_on_the_books(start, before, k);
        lemma_tasks_persist(state, event);
    } else {
        assert(trace(start, events)[k] == state.actions(event)[k - earlier]);
        lemma_step_books_its_deletions(state, event, k - earlier);
        lemma_tasks_stay(start, before);
    }
}

/// Every deletion is on the books. Whatever happens to a run, each
/// deletion it was ever asked for is the deletion of one of its tasks,
/// under the handle of that task; and once the run is `Done`, that task is
/// resolved.
pub proof fn law_deletions_are_on_the_books(start: PurgeView, events: Seq<EventView>)
    requires
        start.wf(),
    ensures
        forall|k: int|
            0 <= k < trace(start, events).len() && (#[trigger] trace(start, events)[k]) is Delete
                ==> {
                let handle = trace(start, events)[k]->handle as int;
                &&& start.tasks.len() <= handle < run(start, events).tasks.len()
                &&& run(start, events).tasks[handle].id == trace(start, events)[k]->id
                &&& run(start, events).phase == Phase::Done ==> run(
                    start,
                    events,
                ).tasks[handle].status != TaskStatus::Pending
            },
{
    let end = run(start, events);
    assert forall|k: int|
        0 <= k < trace(start, events).len() && (#[trigger] trace(start, events)[k]) is Delete
        implies {
        let handle = trace(start, events)[k]->handle as int;
        &&& start.tasks.len() <= handle < end.tasks.len()
        &&& end.tasks[handle].id == trace(start, events)[k]->id
        &&& end.phase == Phase::Done ==> end.tasks[handle].status != TaskStatus::Pending
    } by {
        lemma_deletion_is_on_the_books(start, events, k);
        if end.phase == Phase::Done {
            law_draining_completeness(start, events);
            assert(!awaits(end.tasks, trace(start, events)[k]->handle));
        }
    }
}

/// The test an action passes when it asks for a page of the stream `kind`.
pub open spec fn asks_for_page(kind: ContentKind) -> spec_fn(ActionView) -> bool {
    |action: ActionView|
        match action {
            ActionView::ListPage { kind: asked, control } => asked == kind,
            _ => false,
        }
}

/// The number of pages of the stream `kind` that `actions` ask for.
pub open spec fn requests_in(kind: ContentKind, actions: Seq<ActionView>) -> nat {
    actions.filter(asks_for_page(kind)).len()
}

/// The number of pages of the stream `kind` among `events` that the run
/// was waiting for when they came.
pub open spec fn pages_taken(kind: ContentKind, start: PurgeView, events: Seq<EventView>) -> nat
    decreases events.len(),
{
    if events.len() == 0 {
        0
    } else {
        pages_taken(kind, start, events.drop_last()) + if events.last() is Page
            && events.last()->kind == kind && run(start, events.drop_last()).expects_page(kind) {
            1nat
        } else {
            0nat
        }
    }
}

/// The number of requests for a page of the stream `kind` that are out:
/// one while the stream is being walked, none before and none after.
pub open spec fn requests_out(state: PurgeView, kind: ContentKind) -> nat {
    if state.expects_page(kind) {
        1
    } else {
        0
    }
}

/// None of `actions` asks for a page of the stream `kind` where none of
/// them is a request for a page of it.
proof fn lemma_no_requests(kind: ContentKind, actions: Seq<ActionView>)
    requires
        forall|k: int| 0 <= k < actions.len() ==> !asks_for_page(kind)(#[trigger] actions[k]),
    ensures
        requests_in(kind, actions) == 0,
    decreases actions.len(),
{
    reveal(Seq::filter);
    if actions.len() > 0 {
        assert forall|k: int| 0 <= k < actions.drop_last().len() implies !asks_for_page(kind)(
            #[trigger] actions.drop_last()[k],
        ) by {
            assert(actions.drop_last()[k] == actions[k]);
        }
        lemma_no_requests(kind, actions.drop_last());
        assert(!asks_for_page(kind)(actions[actions.len() - 1]));
    }
}

/// The number of pages of the stream `kind` that the next request of
/// `stream` asks for.
proof fn lemma_requests_in_continuation(kind: ContentKind, stream: PaginatorView)
    ensures
        requests_in(kind, continuation(stream)) == if stream.kind
            == kind && !stream.finished {
            1nat
        } else {
            0nat
        },
{
    let asked = continuation(stream);
    reveal(Seq::filter);
    if stream.finished {
    } else {
        assert(asked.drop_last() =~= Seq::<ActionView>::empty());
        assert(asked.drop_last().filter(asks_for_page(kind)) =~= Seq::<ActionView>::empty());
    }
}

/// One step asks for as many pages of a stream as it leaves requests out,
/// less those that were out before, plus the one it took.
proof fn lemma_step_requests(kind: ContentKind, state: PurgeView, event: EventView)
    requires
        state.wf(),
    ensures
        requests_in(kind, state.actions(event)) + requests_out(state, kind) == requests_out(
            state.next(event),
            kind,
        ) + if event is Page && event->kind == kind && state.expects_page(kind) {
            1nat
        } else {
            0nat
        },
{
    let actions = state.actions(event);
    match event {
        EventView::Authenticated(Ok(token)) => {
            if state.phase == Phase::Authenticating {
                let first = continuation(state.comments);
                let second = continuation(state.posts);
                Seq::filter_distributes_over_add(first, second, asks_for_page(kind));
                lemma_requests_in_continuation(kind, state.comments);
                lemma_requests_in_continuation(kind, state.posts);
            } else {
                lemma_no_requests(kind, actions);
            }
        },
        EventView::Page { kind: arrived, page } => {
            if state.expects_page(arrived) {
                let dispatched = deletions(
                    state.tasks.len(),
                    state.condemned(arrived, page),
                );
                let asked = continuation(
                    state.stream(arrived).accept(page),
                );
                let end = state.completion(event);
                Seq::filter_distributes_over_add(dispatched + asked, end, asks_for_page(kind));
                Seq::filter_distributes_over_add(dispatched, asked, asks_for_page(kind));
                lemma_no_requests(kind, dispatched);
                lemma_no_requests(kind, end);
                lemma_requests_in_continuation(kind, state.stream(arrived).accept(page));
            } else {
                lemma_no_requests(kind, actions);
            }
        },
        _ => {
            lemma_no_requests(kind, actions);
        },
    }
}

/// One request at a time. Whatever happens to a run, the pages of a stream
/// that it was asked to fetch are the pages of that stream that it took in,
/// plus the one that is out while the stream is being walked: the next page
/// of a stream is only asked for once the page before it has arrived.
pub proof fn law_one_request_at_a_time(kind: ContentKind, start: PurgeView, events: Seq<EventView>)
    requires
        start.wf(),
    ensures
        requests_in(kind, trace(start, events)) + requests_out(start, kind) == pages_taken(
            kind,
            start,
            events,
        ) + requests_out(run(start, events), kind),
    decreases events.len(),
{
    if events.len() == 0 {
        lemma_no_requests(kind, trace(start, events));
    } else {
        let before = events.drop_last();
        law_one_request_at_a_time(kind, start, before);
        lemma_run_keeps_wf(start, before);
        lemma_step_requests(kind, run(start, before), events.last());
        Seq::filter_distributes_over_add(
            trace(start, before),
            run(start, before).actions(events.last()),
            asks_for_page(kind),
        );
    }
}

/// The test an action passes when it ends the run.
pub open spec fn ends_run() -> spec_fn(ActionView) -> bool {
    |action: ActionView| action is Finish
}

/// The number of times that `actions` end the run.
pub open spec fn finishes_in(actions: Seq<ActionView>) -> nat {
    actions.filter(ends_run()).len()
}

/// Whether a run is over, one way or the other.
pub open spec fn over(state: PurgeView) -> bool {
    state.phase == Phase::Done || state.phase == Phase::Failed
}

/// As a number: one for a run that is over, none for one that is not.
pub open spec fn once_if_over(state: PurgeView) -> nat {
    if over(state) {
        1
    } else {
        0
    }
}

/// None of `actions` ends the run where none of them is the end of it.
proof fn lemma_no_finishes(actions: Seq<ActionView>)
    requires
        forall|k: int| 0 <= k < actions.len() ==> !((#[trigger] actions[k]) is Finish),
    ensures
        finishes_in(actions) == 0,
    decreases actions.len(),
{
    reveal(Seq::filter);
    if actions.len() > 0 {
        assert forall|k: int| 0 <= k < actions.drop_last().len() implies !((
        #[trigger] actions.drop_last()[k]) is Finish) by {
            assert(actions.drop_last()[k] == actions[k]);
        }
        lemma_no_finishes(actions.drop_last());
        assert(!(actions[actions.len() - 1] is Finish));
    }
}

/// The end of a run, alone, ends it once.
proof fn lemma_one_finish(finish: ActionView)
    requires
        finish is Finish,
    ensures
        finishes_in(seq![finish]) == 1,
{
    reveal(Seq::filter);
    let alone = seq![finish];
    assert(alone.drop_last() =~= Seq::<ActionView>::empty());
    assert(alone.drop_last().filter(ends_run()) =~= Seq::<ActionView>::empty());
}

/// One step ends the run once if it takes the run from not over to over,
/// and not at all otherwise.
proof fn lemma_step_finishes(state: PurgeView, event: EventView)
    requires
        state.wf(),
    ensures
        finishes_in(state.actions(event)) + once_if_over(state) == once_if_over(
            state.next(event),
        ),
{
    let actions = state.actions(event);
    let end = state.completion(event);
    if end.len() > 0 {
        lemma_one_finish(ActionView::Finish(Ok(())));
        assert(end =~= seq![ActionView::Finish(Ok(()))]);
    } else {
        lemma_no_finishes(end);
    }
    match event {
        EventView::Authenticated(Err(error)) => {
            if state.phase == Phase::Authenticating {
                lemma_one_finish(ActionView::Finish(Err(error)));
            } else {
                lemma_no_finishes(actions);
            }
        },
        EventView::Page { kind, page } => {
            if state.expects_page(kind) {
                let dispatched = deletions(
                    state.tasks.len(),
                    state.condemned(kind, page),
                );
                let asked = continuation(
                    state.stream(kind).accept(page),
                );
                Seq::filter_distributes_over_add(dispatched + asked, end, ends_run());
                Seq::filter_distributes_over_add(dispatched, asked, ends_run());
                lemma_no_finishes(dispatched);
                lemma_no_finishes(asked);
            } else {
                lemma_no_finishes(actions);
            }
        },
        EventView::Deleted { handle, outcome } => {
            if !state.expects_deletion(handle) {
                lemma_no_finishes(actions);
            }
        },
        _ => {
            lemma_no_finishes(actions);
        },
    }
}

/// A run ends once. Whatever happens to a run that is not over, it is told
/// to finish exactly once if it is over in the end, and not at all if it
/// is not; and a run that is over is never told anything again.
pub proof fn law_run_ends_once(start: PurgeView, events: Seq<EventView>)
    requires
        start.wf(),
    ensures
        finishes_in(trace(start, events)) + once_if_over(start) == once_if_over(
            run(start, events),
        ),
        over(start) ==> run(start, events) == start && trace(start, events) == Seq::<
            ActionView,
        >::empty(),
    decreases events.len(),
{
    if events.len() == 0 {
        lemma_no_finishes(trace(start, events));
    } else {
        let before = events.drop_last();
        law_run_ends_once(start, before);
        lemma_run_keeps_wf(start, before);
        lemma_step_finishes(run(start, before), events.last());
        Seq::filter_distributes_over_add(
            trace(start, before),
            run(start, before).actions(events.last()),
            ends_run(),
        );
        if over(start) {
            assert(trace(start, events) =~= Seq::<ActionView>::empty());
        }
    }
}

} // verus!

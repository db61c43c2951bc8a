//! The concurrent deleter: keeps the books on the deletions of a run.
//!
//! Each deletion is a task of its own. Dispatching one hands out a handle
//! and never waits; resolving one records how it went and touches no other
//! task. A failed deletion is a diagnostic, never an error of the run.

use crate::client::DeleteLinkResult;
use crate::error::{Error, ErrorView};
use crate::purge::item::ContentKind;
use crate::purge::record::{Record, RecordView};
use vstd::prelude::*;

verus! {

/// How far the deletion of one item has come.
#[derive(Clone, Copy, Debug, PartialEq, Eq, Structural)]
pub enum TaskStatus {
    /// Dispatched and not yet resolved.
    Pending,
    /// Resolved: the item was deleted.
    Deleted,
    /// Resolved: the deletion failed.
    Failed,
}

/// The deletion of one item: the handle of the item, the stream it came
/// from, and how far its deletion has come. A task stands for itself;
/// nothing that happens to it touches another.
#[derive(Debug)]
pub struct DeletionTask {
    id: String,
    kind: ContentKind,
    status: TaskStatus,
}

/// What a [`DeletionTask`] is, mathematically.
pub ghost struct TaskView {
    pub id: Seq<char>,
    pub kind: ContentKind,
    pub status: TaskStatus,
}

impl TaskView {
    /// The task of deleting the item `id` of the stream `kind`, just
    /// dispatched.
    pub open spec fn pending(id: Seq<char>, kind: ContentKind) -> TaskView {
        TaskView { id, kind, status: TaskStatus::Pending }
    }
}

impl DeepView for DeletionTask {
    type V = TaskView;

    closed spec fn deep_view(&self) -> TaskView {
        TaskView { id: self.id@, kind: self.kind, status: self.status }
    }
}

impl DeletionTask {
    /// The handle of the item that is deleted.
    pub fn id(&self) -> (id: &str)
        ensures
            id@ == self.deep_view().id,
    {
        self.id.as_str()
    }

    /// The stream that the item came from.
    pub fn kind(&self) -> (kind: ContentKind)
        ensures
            kind == self.deep_view().kind,
    {
        self.kind
    }

    /// How far the deletion has come.
    pub fn status(&self) -> (status: TaskStatus)
        ensures
            status == self.deep_view().status,
    {
        self.status
    }
}

/// The test a task passes while it is unresolved.
pub open spec fn is_pending() -> spec_fn(TaskView) -> bool {
    |task: TaskView| task.status == TaskStatus::Pending
}

/// The number of unresolved tasks among `tasks`.
pub open spec fn pending_in(tasks: Seq<TaskView>) -> nat {
    tasks.filter(is_pending()).len()
}

/// Whether `handle` names an unresolved task of `tasks`.
pub open spec fn awaits(tasks: Seq<TaskView>, handle: nat) -> bool {
    handle < tasks.len() && tasks[handle as int].status == TaskStatus::Pending
}

/// The status a task takes when its deletion comes back.
pub open spec fn status_after(outcome: Result<(), ErrorView>) -> TaskStatus {
    match outcome {
        Ok(_) => TaskStatus::Deleted,
        Err(_) => TaskStatus::Failed,
    }
}

/// The tasks after the deletion named by `handle` came back with `outcome`:
/// that one task is resolved and every other task is as it was. A handle
/// that names no unresolved task changes nothing.
pub open spec fn resolved(
    tasks: Seq<TaskView>,
    handle: nat,
    outcome: Result<(), ErrorView>,
) -> Seq<TaskView> {
    if awaits(tasks, handle) {
        tasks.update(
            handle as int,
            TaskView { status: status_after(outcome), ..tasks[handle as int] },
        )
    } else {
        tasks
    }
}

/// The diagnostic of the deletion named by `handle` coming back with
/// `outcome`, if the handle names an unresolved task.
pub open spec fn resolution_record(
    tasks: Seq<TaskView>,
    handle: nat,
    outcome: Result<(), ErrorView>,
) -> Option<RecordView> {
    if awaits(tasks, handle) {
        let task = tasks[handle as int];
        match outcome {
            Ok(_) => Some(RecordView::ItemDeleted { kind: task.kind, id: task.id }),
            Err(error) => Some(
                RecordView::ItemDeleteFailed { kind: task.kind, id: task.id, error },
            ),
        }
    } else {
        None
    }
}

/// The view of the answer to a deletion.
pub open spec fn outcome_of(outcome: Result<DeleteLinkResult, Error>) -> Result<(), ErrorView> {
    match outcome {
        Ok(_) => Ok(()),
        Err(error) => Err(error@),
    }
}

/// A newly dispatched task is one more unresolved task.
proof fn lemma_pending_after_dispatch(tasks: Seq<TaskView>, id: Seq<char>, kind: ContentKind)
    ensures
        pending_in(tasks.push(TaskView::pending(id, kind))) == pending_in(tasks) + 1,
        pending_in(tasks) <= tasks.len(),
{
    tasks.lemma_filter_push(TaskView::pending(id, kind), is_pending());
    tasks.lemma_filter_len(is_pending());
}

/// Resolving a task leaves one unresolved task fewer.
proof fn lemma_pending_after_resolution(
    tasks: Seq<TaskView>,
    handle: nat,
    outcome: Result<(), ErrorView>,
)
    requires
        awaits(tasks, handle),
    ensures
        pending_in(resolved(tasks, handle, outcome)) + 1 == pending_in(tasks),
    decreases tasks.len(),
{
    let after = resolved(tasks, handle, outcome);
    let rest = tasks.drop_last();
    assert(tasks =~= rest.push(tasks.last()));
    rest.lemma_filter_push(tasks.last(), is_pending());
    if handle == tasks.len() - 1 {
        assert(after =~= rest.push(after.last()));
        rest.lemma_filter_push(after.last(), is_pending());
    } else {
        lemma_pending_after_resolution(rest, handle, outcome);
        let rest_after = resolved(rest, handle, outcome);
        assert(after =~= rest_after.push(tasks.last()));
        rest_after.lemma_filter_push(tasks.last(), is_pending());
    }
}

/// Keeps the books on the deletions of a run.
#[derive(Debug)]
pub struct ConcurrentDeleter {
    tasks: Vec<DeletionTask>,
    /// The number of unresolved tasks among `tasks`.
    pending: usize,
}

impl View for ConcurrentDeleter {
    type V = Seq<TaskView>;

    closed spec fn view(&self) -> Seq<TaskView> {
        self.tasks.deep_view()
    }
}

impl ConcurrentDeleter {
    /// The books are in order: the count of unresolved tasks that is kept
    /// is the number of unresolved tasks that are held.
    #[verifier::type_invariant]
    spec fn in_order(self) -> bool {
        self.pending == pending_in(self@)
    }

    /// A deleter that has dispatched nothing.
    pub fn new() -> (deleter: ConcurrentDeleter)
        ensures
            deleter@ == Seq::<TaskView>::empty(),
    {
        let tasks: Vec<DeletionTask> = Vec::new();
        proof {
            assert(tasks.deep_view() =~= Seq::<TaskView>::empty());
            reveal(Seq::filter);
        }
        ConcurrentDeleter { tasks, pending: 0 }
    }

    /// Takes the books out of `self`, which is left with none.
    fn take(&mut self) -> (taken: ConcurrentDeleter)
        ensures
            taken@ == old(self)@,
            final(self)@ == Seq::<TaskView>::empty(),
    {
        let mut taken = ConcurrentDeleter::new();
        std::mem::swap(self, &mut taken);
        taken
    }

    /// Starts the deletion of the item `id` of the stream `kind`. The
    /// handle is the number of tasks dispatched before this one.
    pub fn dispatch(&mut self, id: String, kind: ContentKind) -> (handle: usize)
        ensures
            final(self)@ == old(self)@.push(TaskView::pending(id@, kind)),
            handle == old(self)@.len(),
    {
        let taken = self.take();
        proof {
            use_type_invariant(&taken);
        }
        let ConcurrentDeleter { tasks, pending } = taken;
        let mut tasks = tasks;
        let ghost before = tasks;
        let handle = tasks.len();
        let task = DeletionTask { id, kind, status: TaskStatus::Pending };
        tasks.push(task);
        let dispatched = tasks.len();
        proof {
            assert(tasks.deep_view() =~= before.deep_view().push(task.deep_view()));
            lemma_pending_after_dispatch(before.deep_view(), id@, kind);
        }
        *self = ConcurrentDeleter { tasks, pending: pending + 1 };
        handle
    }

    /// Records that the deletion named by `handle` came back with
    /// `outcome`, and returns the diagnostic of it. A handle that names no
    /// unresolved task changes nothing and yields no diagnostic.
    pub fn resolve(&mut self, handle: usize, outcome: Result<DeleteLinkResult, Error>) -> (record:
        Option<Record>)
        ensures
            final(self)@ == resolved(old(self)@, handle as nat, outcome_of(outcome)),
            record.deep_view() == resolution_record(old(self)@, handle as nat, outcome_of(outcome)),
    {
        if handle >= self.tasks.len() {
            return None;
        }
        match self.tasks[handle].status {
            TaskStatus::Pending => {},
            _ => {
                return None;
            },
        }
        let id = self.tasks[handle].id.clone();
        let kind = self.tasks[handle].kind;
        let (status, record) = match outcome {
            Ok(_) => (TaskStatus::Deleted, Record::ItemDeleted { kind, id: id.clone() }),
            Err(error) => (
                TaskStatus::Failed,
                Record::ItemDeleteFailed { kind, id: id.clone(), error },
            ),
        };
        let taken = self.take();
        proof {
            use_type_invariant(&taken);
        }
        let ConcurrentDeleter { tasks, pending } = taken;
        let mut tasks = tasks;
        let ghost before = tasks.deep_view();
        tasks.set(handle, DeletionTask { id, kind, status });
        proof {
            assert(tasks.deep_view() =~= resolved(before, handle as nat, outcome_of(outcome)));
            lemma_pending_after_resolution(before, handle as nat, outcome_of(outcome));
        }
        *self = ConcurrentDeleter { tasks, pending: pending - 1 };
        Some(record)
    }

    /// The number of deletions dispatched so far.
    pub fn dispatched(&self) -> (count: usize)
        ensures
            count == self@.len(),
    {
        self.tasks.len()
    }

    /// The number of deletions dispatched and not yet resolved.
    pub fn outstanding(&self) -> (count: usize)
        ensures
            count == pending_in(self@),
    {
        proof {
            use_type_invariant(self);
        }
        self.pending
    }

    /// Whether every deletion dispatched so far is resolved.
    pub fn is_drained(&self) -> (drained: bool)
        ensures
            drained == (pending_in(self@) == 0),
    {
        proof {
            use_type_invariant(self);
        }
        self.pending == 0
    }

    /// The task named by `handle`; nothing for a handle that was never
    /// handed out.
    pub fn task(&self, handle: usize) -> (task: Option<&DeletionTask>)
        ensures
            task.deep_view() == if handle < self@.len() {
                Some(self@[handle as int])
            } else {
                None
            },
    {
        if handle < self.tasks.len() {
            Some(&self.tasks[handle])
        } else {
            None
        }
    }

    /// How far the deletion named by `handle` has come; nothing for a
    /// handle that was never handed out.
    pub fn status(&self, handle: usize) -> (status: Option<TaskStatus>)
        ensures
            status == if handle < self@.len() {
                Some(self@[handle as int].status)
            } else {
                None
            },
    {
        if handle < self.tasks.len() {
            Some(self.tasks[handle].status)
        } else {
            None
        }
    }
}

} // verus!

//! The contract of the document store: what the handlers ask of it, what it
//! answers, and what a store that keeps the contract does.

use vstd::prelude::*;

use crate::db_types::{StoredTaskView, Task as StoredTask};
use crate::task::{Priority, Task, TaskView};
use crate::time::Timestamp;

verus! {

/// A new value for one field of a task.
#[derive(Debug, PartialEq, Eq)]
pub enum FieldPatch {
    Title(String),
    Priority(Priority),
    Due(Option<Timestamp>),
    Done(bool),
    DoneAt(Timestamp),
}

/// A `FieldPatch` as a mathematical value.
pub enum FieldPatchView {
    Title(Seq<char>),
    Priority(Priority),
    Due(Option<Timestamp>),
    Done(bool),
    DoneAt(Timestamp),
}

impl View for FieldPatch {
    type V = FieldPatchView;

    open spec fn view(&self) -> FieldPatchView {
        match self {
            FieldPatch::Title(title) => FieldPatchView::Title(title@),
            FieldPatch::Priority(priority) => FieldPatchView::Priority(*priority),
            FieldPatch::Due(due) => FieldPatchView::Due(*due),
            FieldPatch::Done(done) => FieldPatchView::Done(*done),
            FieldPatch::DoneAt(at) => FieldPatchView::DoneAt(*at),
        }
    }
}

impl DeepView for FieldPatch {
    type V = FieldPatchView;

    open spec fn deep_view(&self) -> FieldPatchView {
        self@
    }
}

impl FieldPatchView {
    /// The name under which the store keeps the field.
    pub open spec fn field_name(self) -> Seq<char> {
        match self {
            FieldPatchView::Title(_) => "title"@,
            FieldPatchView::Priority(_) => "priority"@,
            FieldPatchView::Due(_) => "due"@,
            FieldPatchView::Done(_) => "done"@,
            FieldPatchView::DoneAt(_) => "done_at"@,
        }
    }

    /// The task with this one field replaced.
    pub open spec fn apply(self, task: TaskView) -> TaskView {
        match self {
            FieldPatchView::Title(title) => TaskView { title, ..task },
            FieldPatchView::Priority(priority) => TaskView { priority, ..task },
            FieldPatchView::Due(due) => TaskView { due, ..task },
            FieldPatchView::Done(done) => TaskView { done, ..task },
            FieldPatchView::DoneAt(at) => TaskView { done_at: Some(at), ..task },
        }
    }
}

impl FieldPatch {
    /// The name under which the store keeps the field.
    pub fn field_name(&self) -> (name: &'static str)
        ensures
            name@ == self@.field_name(),
    {
        match self {
            FieldPatch::Title(_) => "title",
            FieldPatch::Priority(_) => "priority",
            FieldPatch::Due(_) => "due",
            FieldPatch::Done(_) => "done",
            FieldPatch::DoneAt(_) => "done_at",
        }
    }
}

/// The task after the patches, each applied to what the one before it left.
pub open spec fn apply_patches(task: TaskView, patches: Seq<FieldPatchView>) -> TaskView
    decreases patches.len(),
{
    if patches.len() == 0 {
        task
    } else {
        apply_patches(patches[0].apply(task), patches.drop_first())
    }
}

/// One call on the store.
#[derive(Debug, PartialEq, Eq)]
pub enum StoreRequest {
    /// Keep this new task, under an id of the store's choosing.
    Create(Task),
    /// Hand out every task.
    ListAll,
    /// Drop the task with this id.
    Delete(String),
    /// Replace these fields of the task with this id, all of them or none.
    Patch(String, Vec<FieldPatch>),
}

/// A `StoreRequest` as a mathematical value.
pub enum RequestView {
    Create(TaskView),
    ListAll,
    Delete(Seq<char>),
    Patch(Seq<char>, Seq<FieldPatchView>),
}

impl View for StoreRequest {
    type V = RequestView;

    open spec fn view(&self) -> RequestView {
        match self {
            StoreRequest::Create(task) => RequestView::Create(task@),
            StoreRequest::ListAll => RequestView::ListAll,
            StoreRequest::Delete(id) => RequestView::Delete(id@),
            StoreRequest::Patch(id, patches) => RequestView::Patch(id@, patches.deep_view()),
        }
    }
}

/// What the store answers.
#[derive(Debug, PartialEq, Eq)]
pub enum StoreReply {
    /// The task as it was stored, if the store reported one.
    Created(Option<StoredTask>),
    /// Every task in the store.
    Listed(Vec<StoredTask>),
    /// Whether there was a task to drop.
    Deleted(bool),
    /// The task after the update, or nothing where no task has the id.
    Patched(Option<StoredTask>),
    /// The store, or the way to it, failed.
    Failed,
}

/// A `StoreReply` as a mathematical value.
pub enum ReplyView {
    Created(Option<StoredTaskView>),
    Listed(Seq<StoredTaskView>),
    Deleted(bool),
    Patched(Option<StoredTaskView>),
    Failed,
}

impl View for StoreReply {
    type V = ReplyView;

    open spec fn view(&self) -> ReplyView {
        match self {
            StoreReply::Created(stored) => ReplyView::Created(stored.deep_view()),
            StoreReply::Listed(all) => ReplyView::Listed(all.deep_view()),
            StoreReply::Deleted(existed) => ReplyView::Deleted(*existed),
            StoreReply::Patched(updated) => ReplyView::Patched(updated.deep_view()),
            StoreReply::Failed => ReplyView::Failed,
        }
    }
}

/// A task as stored after the patches.
pub open spec fn patched(stored: StoredTaskView, patches: Seq<FieldPatchView>) -> StoredTaskView {
    StoredTaskView { id: stored.id, task: apply_patches(stored.task, patches) }
}

/// A store that keeps the contract: the tasks that it holds, in the order in
/// which they were created.
pub struct StoreModel {
    pub records: Seq<StoredTaskView>,
}

impl StoreModel {
    /// No two tasks share an id.
    pub open spec fn wf(self) -> bool {
        forall|i: int, j: int|
            0 <= i < j < self.records.len() ==> (#[trigger] self.records[i]).id != (
            #[trigger] self.records[j]).id
    }

    /// Some task has the id.
    pub open spec fn has(self, id: Seq<char>) -> bool {
        exists|i: int| 0 <= i < self.records.len() && (#[trigger] self.records[i]).id == id
    }

    /// Where the task with the id stands.
    pub open spec fn position(self, id: Seq<char>) -> int {
        choose|i: int| 0 <= i < self.records.len() && (#[trigger] self.records[i]).id == id
    }

    /// The task with the id.
    pub open spec fn get(self, id: Seq<char>) -> StoredTaskView {
        self.records[self.position(id)]
    }

    /// What the store answers to a request. `new_id` is the id that it would
    /// give to a task created now; a store gives out no id twice.
    pub open spec fn reply(self, request: RequestView, new_id: Seq<char>) -> ReplyView {
        match request {
            RequestView::Create(task) => if self.has(new_id) {
                ReplyView::Failed
            } else {
                ReplyView::Created(Some(StoredTaskView { id: new_id, task }))
            },
            RequestView::ListAll => ReplyView::Listed(self.records),
            RequestView::Delete(id) => ReplyView::Deleted(self.has(id)),
            RequestView::Patch(id, patches) => if self.has(id) {
                ReplyView::Patched(Some(patched(self.get(id), patches)))
            } else {
                ReplyView::Patched(None)
            },
        }
    }

    /// What the store holds after a request.
    pub open spec fn next(self, request: RequestView, new_id: Seq<char>) -> StoreModel {
        match request {
            RequestView::Create(task) => if self.has(new_id) {
                self
            } else {
                StoreModel { records: self.records.push(StoredTaskView { id: new_id, task }) }
            },
            RequestView::ListAll => self,
            RequestView::Delete(id) => if self.has(id) {
                StoreModel { records: self.records.remove(self.position(id)) }
            } else {
                self
            },
            RequestView::Patch(id, patches) => if self.has(id) {
                StoreModel {
                    records: self.records.update(
                        self.position(id),
                        patched(self.get(id), patches),
                    ),
                }
            } else {
                self
            },
        }
    }
}

/// In a store whose ids differ, the task with an id stands where any task
/// with that id stands.
pub proof fn lemma_position(store: StoreModel, id: Seq<char>, at: int)
    requires
        store.wf(),
        0 <= at < store.records.len(),
        store.records[at].id == id,
    ensures
        store.has(id),
        store.position(id) == at,
{
    let found = store.position(id);
    assert(0 <= found < store.records.len() && store.records[found].id == id);
    if found < at {
        assert(store.records[found].id != store.records[at].id);
    } else if at < found {
        assert(store.records[at].id != store.records[found].id);
    }
}

/// A list of one patch does what that patch does.
pub proof fn lemma_apply_one(task: TaskView, patch: FieldPatchView)
    ensures
        apply_patches(task, seq![patch]) == patch.apply(task),
{
    reveal_with_fuel(apply_patches, 2);
    assert(seq![patch].drop_first().len() == 0);
}

/// A list of two patches does what the first and then the second does.
pub proof fn lemma_apply_two(task: TaskView, first: FieldPatchView, second: FieldPatchView)
    ensures
        apply_patches(task, seq![first, second]) == second.apply(first.apply(task)),
{
    reveal_with_fuel(apply_patches, 2);
    assert(seq![first, second].drop_first() =~= seq![second]);
    lemma_apply_one(first.apply(task), second);
}

/// Whatever is asked of a store whose ids differ, its ids differ afterwards.
pub proof fn ids_stay_apart(store: StoreModel, request: RequestView, new_id: Seq<char>)
    requires
        store.wf(),
    ensures
        store.next(request, new_id).wf(),
{
    let after = store.next(request, new_id);
    match request {
        RequestView::Create(task) => {
            if !store.has(new_id) {
                assert forall|i: int, j: int| 0 <= i < j < after.records.len() implies (
                #[trigger] after.records[i]).id != (#[trigger] after.records[j]).id by {
                    if j == store.records.len() {
                        assert(store.records[i].id != new_id);
                    } else {
                        assert(store.records[i].id != store.records[j].id);
                    }
                }
            }
        },
        RequestView::ListAll => {},
        RequestView::Delete(id) => {
            if store.has(id) {
                let at = store.position(id);
                assert forall|i: int, j: int| 0 <= i < j < after.records.len() implies (
                #[trigger] after.records[i]).id != (#[trigger] after.records[j]).id by {
                    let from_i = if i < at {
                        i
                    } else {
                        i + 1
                    };
                    let from_j = if j < at {
                        j
                    } else {
                        j + 1
                    };
                    assert(store.records[from_i].id != store.records[from_j].id);
                }
            }
        },
        RequestView::Patch(id, patches) => {
            if store.has(id) {
                assert forall|i: int, j: int| 0 <= i < j < after.records.len() implies (
                #[trigger] after.records[i]).id != (#[trigger] after.records[j]).id by {
                    assert(store.records[i].id != store.records[j].id);
                }
            }
        },
    }
}

} // verus!

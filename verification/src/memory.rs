//! A store in memory that does what the contract says: for trying the
//! handlers out without a database.

use vstd::prelude::*;

use crate::db_types::{StoredTaskView, Task as StoredTask};
use crate::store::{
    apply_patches, ids_stay_apart, lemma_position, patched, FieldPatch, StoreModel, StoreReply,
    StoreRequest,
};
use crate::text::str_eq;

verus! {

/// A store that keeps its tasks in memory.
pub struct MemoryStore {
    records: Vec<StoredTask>,
}

impl View for MemoryStore {
    type V = StoreModel;

    closed spec fn view(&self) -> StoreModel {
        StoreModel { records: self.records.deep_view() }
    }
}

fn apply_patch(record: StoredTask, patch: &FieldPatch) -> (after: StoredTask)
    ensures
        after@ == (StoredTaskView { id: record@.id, task: patch@.apply(record@.task) }),
{
    let mut after = record;
    match patch {
        FieldPatch::Title(title) => {
            after.title = title.clone();
        },
        FieldPatch::Priority(priority) => {
            after.priority = *priority;
        },
        FieldPatch::Due(due) => {
            after.due = *due;
        },
        FieldPatch::Done(done) => {
            after.done = *done;
        },
        FieldPatch::DoneAt(at) => {
            after.done_at = Some(*at);
        },
    }
    after
}

fn apply_all(record: StoredTask, patches: &Vec<FieldPatch>) -> (after: StoredTask)
    ensures
        after@ == patched(record@, patches.deep_view()),
{
    let ghost all = patches.deep_view();
    let ghost start = record@;
    let mut after = record;
    let mut i: usize = 0;
    assert(all.skip(0) =~= all);
    while i < patches.len()
        invariant
            i <= patches.len(),
            all == patches.deep_view(),
            after@.id == start.id,
            apply_patches(after@.task, all.skip(i as int)) == apply_patches(start.task, all),
        decreases patches.len() - i,
    {
        assert(all.skip(i as int)[0] == patches[i as int]@);
        assert(all.skip(i as int).drop_first() =~= all.skip(i + 1));
        after = apply_patch(after, &patches[i]);
        i += 1;
    }
    after
}

fn clone_records(records: &Vec<StoredTask>) -> (copy: Vec<StoredTask>)
    ensures
        copy.deep_view() == records.deep_view(),
{
    let mut copy: Vec<StoredTask> = Vec::new();
    let mut i: usize = 0;
    while i < records.len()
        invariant
            i <= records.len(),
            copy.len() == i,
            forall|k: int| 0 <= k < i ==> copy[k]@ == records[k]@,
        decreases records.len() - i,
    {
        copy.push(records[i].clone());
        i += 1;
    }
    assert(copy.deep_view() =~= records.deep_view());
    copy
}

fn find(records: &Vec<StoredTask>, id: &str) -> (at: Option<usize>)
    requires
        (StoreModel { records: records.deep_view() }).wf(),
    ensures
        at is Some <==> (StoreModel { records: records.deep_view() }).has(id@),
        at is Some ==> at->0 < records.len() && at->0 == (StoreModel {
            records: records.deep_view(),
        }).position(id@),
{
    let ghost model = StoreModel { records: records.deep_view() };
    let mut i: usize = 0;
    while i < records.len()
        invariant
            i <= records.len(),
            model == (StoreModel { records: records.deep_view() }),
            model.wf(),
            forall|k: int| 0 <= k < i ==> model.records[k].id != id@,
        decreases records.len() - i,
    {
        if str_eq(records[i].id.as_str(), id) {
            proof {
                lemma_position(model, id@, i as int);
            }
            return Some(i);
        }
        i += 1;
    }
    None
}

impl MemoryStore {
    #[verifier::type_invariant]
    spec fn ids_differ(&self) -> bool {
        self@.wf()
    }

    /// A store without tasks.
    pub fn new() -> (store: MemoryStore)
        ensures
            store@.records.len() == 0,
            store@.wf(),
    {
        MemoryStore { records: Vec::new() }
    }

    /// Does what a store does with a request, and answers as a store answers.
    /// A created task is kept under `new_id`; where that id is taken, nothing
    /// is created and the store reports a failure.
    pub fn perform(&mut self, request: &StoreRequest, new_id: &str) -> (reply: StoreReply)
        ensures
            old(self)@.wf(),
            final(self)@.wf(),
            final(self)@ == old(self)@.next(request@, new_id@),
            reply@ == old(self)@.reply(request@, new_id@),
    {
        proof {
            use_type_invariant(&*self);
            ids_stay_apart(self@, request@, new_id@);
        }
        let ghost before = self@;
        let mut records: Vec<StoredTask> = Vec::new();
        core::mem::swap(&mut self.records, &mut records);
        assert(before.records == records.deep_view());
        let reply = match request {
            StoreRequest::Create(task) => {
                match find(&records, new_id) {
                    Some(_) => StoreReply::Failed,
                    None => {
                        let kept = StoredTask::stored(new_id.to_owned(), task.clone());
                        let copy = kept.clone();
                        records.push(kept);
                        StoreReply::Created(Some(copy))
                    },
                }
            },
            StoreRequest::ListAll => StoreReply::Listed(clone_records(&records)),
            StoreRequest::Delete(id) => {
                match find(&records, id.as_str()) {
                    Some(at) => {
                        records.remove(at);
                        StoreReply::Deleted(true)
                    },
                    None => StoreReply::Deleted(false),
                }
            },
            StoreRequest::Patch(id, patches) => {
                match find(&records, id.as_str()) {
                    Some(at) => {
                        let after = apply_all(records[at].clone(), patches);
                        let copy = after.clone();
                        records.set(at, after);
                        StoreReply::Patched(Some(copy))
                    },
                    None => StoreReply::Patched(None),
                }
            },
        };
        assert(records.deep_view() =~= before.next(request@, new_id@).records);
        self.records = records;
        reply
    }
}

} // verus!

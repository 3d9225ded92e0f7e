//! What holds of the handlers when the store keeps its contract.

use vstd::prelude::*;

use crate::auth::{cookie_line, guard, holds_key, is_login_path, login_answer};
use crate::db_types::StoredTaskView;
use crate::error::ApiError;
use crate::store::{
    apply_patches, ids_stay_apart, lemma_apply_one, lemma_apply_two, lemma_position,
    FieldPatchView, ReplyView, RequestView, StoreModel,
};
use crate::task::{
    create_request, created, delete_request, deleted, done_request, due_request, list_request,
    listed, patch_request, priority_request, title_request, updated, Priority, TaskView,
};
use crate::time::Timestamp;

verus! {

/// The guard fails closed: on any path but login, a request is unauthorized
/// unless the server has a secret and one of the request's cookies is `Key`
/// with exactly that secret.
pub proof fn guard_fails_closed(
    path: Seq<char>,
    secret: Option<Seq<char>>,
    pairs: Option<Seq<Option<(Seq<char>, Seq<char>)>>>,
)
    requires
        !is_login_path(path),
        secret is None || pairs is None || !holds_key(pairs->0, secret->0),
    ensures
        guard(path, secret, pairs) == Err::<(), ApiError>(ApiError::Unauthorized),
{
}

/// Login with the secret sets the cookie `Key` to the secret. Login with
/// anything else is forbidden, and sets no cookie.
pub proof fn login_sets_key_or_forbids(secret: Seq<char>, given: Seq<char>)
    ensures
        given == secret ==> login_answer(secret, given) == Ok::<Seq<char>, ApiError>(
            cookie_line("Key"@, secret, true),
        ),
        given != secret ==> login_answer(secret, given) == Err::<Seq<char>, ApiError>(
            ApiError::Forbidden,
        ),
{
}

/// A task without a title is turned away, and the store is asked nothing.
pub proof fn untitled_task_is_turned_away(
    title: Seq<char>,
    priority: Priority,
    due: Option<Timestamp>,
)
    requires
        title.len() == 0,
    ensures
        create_request(title, priority, due) == Err::<RequestView, ApiError>(
            ApiError::Validation,
        ),
{
}

/// Deleting an id that the store does not hold is answered with `NotFound`,
/// and the store is left as it was.
pub proof fn delete_absent_is_not_found(store: StoreModel, id: Seq<char>, new_id: Seq<char>)
    requires
        !store.has(id),
    ensures
        delete_request(Some(id)) is Ok,
        deleted(store.reply(delete_request(Some(id))->Ok_0, new_id)) == Err::<(), ApiError>(
            ApiError::NotFound,
        ),
        store.next(delete_request(Some(id))->Ok_0, new_id) == store,
{
}

/// An update of an id that the store does not hold is answered with
/// `NotFound`, whatever it would change, and the store is left as it was.
pub proof fn update_absent_is_not_found(
    store: StoreModel,
    id: Seq<char>,
    patches: Seq<FieldPatchView>,
    new_id: Seq<char>,
)
    requires
        !store.has(id),
    ensures
        patch_request(Some(id), patches) is Ok,
        updated(store.reply(patch_request(Some(id), patches)->Ok_0, new_id)) == Err::<
            (),
            ApiError,
        >(ApiError::NotFound),
        store.next(patch_request(Some(id), patches)->Ok_0, new_id) == store,
{
}

/// A store that fails is answered with an internal error, whatever was asked
/// of it.
pub proof fn store_failure_is_internal()
    ensures
        listed(ReplyView::Failed) == Err::<Seq<StoredTaskView>, ApiError>(ApiError::Internal),
        created(ReplyView::Failed) == Err::<Seq<char>, ApiError>(ApiError::Internal),
        deleted(ReplyView::Failed) == Err::<(), ApiError>(ApiError::Internal),
        updated(ReplyView::Failed) == Err::<(), ApiError>(ApiError::Internal),
{
}

/// Deleting a task succeeds, and deleting it once more is answered with
/// `NotFound`.
pub proof fn delete_twice(store: StoreModel, id: Seq<char>, new_id: Seq<char>)
    requires
        store.wf(),
        store.has(id),
    ensures
        delete_request(Some(id)) is Ok,
        ({
            let request = delete_request(Some(id))->Ok_0;
            let after = store.next(request, new_id);
            &&& deleted(store.reply(request, new_id)) == Ok::<(), ApiError>(())
            &&& !after.has(id)
            &&& deleted(after.reply(request, new_id)) == Err::<(), ApiError>(ApiError::NotFound)
        }),
{
    let request = delete_request(Some(id))->Ok_0;
    let after = store.next(request, new_id);
    let at = store.position(id);
    if after.has(id) {
        let left = after.position(id);
        let from = if left < at {
            left
        } else {
            left + 1
        };
        assert(after.records[left] == store.records[from]);
        lemma_position(store, id, from);
    }
}

/// After a task has been marked done at the instant `now`, the store holds it
/// as done, with `now` as the instant at which it was done, and a listing
/// shows it so. With that, the instant shown is no earlier than any `start`
/// that is not after `now`.
pub proof fn done_is_stamped(
    store: StoreModel,
    id: Seq<char>,
    start: Timestamp,
    now: Timestamp,
    new_id: Seq<char>,
)
    requires
        store.wf(),
        store.has(id),
        start.not_after(now),
    ensures
        done_request(Some(id), true, now) is Ok,
        ({
            let request = done_request(Some(id), true, now)->Ok_0;
            let after = store.next(request, new_id);
            let shown = listed(after.reply(list_request(), new_id));
            &&& updated(store.reply(request, new_id)) == Ok::<(), ApiError>(())
            &&& after.has(id)
            &&& after.get(id).task.done
            &&& after.get(id).task.done_at == Some(now)
            &&& start.not_after(after.get(id).task.done_at->0)
            &&& shown is Ok
            &&& shown->Ok_0.contains(after.get(id))
        }),
{
    let request = done_request(Some(id), true, now)->Ok_0;
    let after = store.next(request, new_id);
    let at = store.position(id);
    lemma_apply_two(store.get(id).task, FieldPatchView::Done(true), FieldPatchView::DoneAt(now));
    ids_stay_apart(store, request, new_id);
    assert(after.records[at].id == id);
    lemma_position(after, id, at);
}

/// Marking a task not done leaves the instant at which it was last done as
/// it was.
pub proof fn undone_keeps_stamp(store: StoreModel, id: Seq<char>, now: Timestamp, new_id: Seq<char>)
    requires
        store.wf(),
        store.has(id),
    ensures
        done_request(Some(id), false, now) is Ok,
        ({
            let request = done_request(Some(id), false, now)->Ok_0;
            let after = store.next(request, new_id);
            &&& updated(store.reply(request, new_id)) == Ok::<(), ApiError>(())
            &&& after.has(id)
            &&& !after.get(id).task.done
            &&& after.get(id).task.done_at == store.get(id).task.done_at
        }),
{
    let request = done_request(Some(id), false, now)->Ok_0;
    let after = store.next(request, new_id);
    let at = store.position(id);
    lemma_apply_one(store.get(id).task, FieldPatchView::Done(false));
    ids_stay_apart(store, request, new_id);
    assert(after.records[at].id == id);
    lemma_position(after, id, at);
}

/// A task that was created is in the next listing exactly once, under the id
/// that the store gave it, with the title, priority and due date that were
/// sent, without steps and not done.
pub proof fn created_task_is_listed_once(
    store: StoreModel,
    title: Seq<char>,
    priority: Priority,
    due: Option<Timestamp>,
    new_id: Seq<char>,
)
    requires
        store.wf(),
        !store.has(new_id),
        title.len() > 0,
        due is Some ==> due->0.wf(),
    ensures
        create_request(title, priority, due) is Ok,
        ({
            let request = create_request(title, priority, due)->Ok_0;
            let after = store.next(request, new_id);
            let shown = listed(after.reply(list_request(), new_id));
            let made = StoredTaskView { id: new_id, task: TaskView::fresh(title, priority, due) };
            &&& created(store.reply(request, new_id)) == Ok::<Seq<char>, ApiError>(new_id)
            &&& shown is Ok
            &&& shown->Ok_0.contains(made)
            &&& forall|i: int, j: int|
                0 <= i < shown->Ok_0.len() && 0 <= j < shown->Ok_0.len() && (
                #[trigger] shown->Ok_0[i]).id == new_id && (#[trigger] shown->Ok_0[j]).id
                    == new_id ==> i == j
        }),
{
    let request = create_request(title, priority, due)->Ok_0;
    let after = store.next(request, new_id);
    let made = StoredTaskView { id: new_id, task: TaskView::fresh(title, priority, due) };
    assert(after.records[store.records.len() as int] == made);
    assert forall|i: int| 0 <= i < after.records.len() && (#[trigger] after.records[i]).id
        == new_id implies i == store.records.len() by {
        if i < store.records.len() {
            assert(store.records[i].id == new_id);
        }
    }
}

/// A new title, priority or due date changes that field of the task and no
/// other: whether the task is done, and since when, stays as it was.
pub proof fn field_updates_touch_one_field(
    store: StoreModel,
    id: Seq<char>,
    title: Seq<char>,
    priority: Priority,
    due: Option<Timestamp>,
    new_id: Seq<char>,
)
    requires
        store.wf(),
        store.has(id),
        title.len() > 0,
        due is Some ==> due->0.wf(),
    ensures
        title_request(Some(id), title) is Ok,
        priority_request(Some(id), priority) is Ok,
        due_request(Some(id), due) is Ok,
        ({
            let before = store.get(id).task;
            let after = store.next(title_request(Some(id), title)->Ok_0, new_id);
            after.has(id) && after.get(id).task == (TaskView { title, ..before })
        }),
        ({
            let before = store.get(id).task;
            let after = store.next(priority_request(Some(id), priority)->Ok_0, new_id);
            after.has(id) && after.get(id).task == (TaskView { priority, ..before })
        }),
        ({
            let before = store.get(id).task;
            let after = store.next(due_request(Some(id), due)->Ok_0, new_id);
            after.has(id) && after.get(id).task == (TaskView { due, ..before })
        }),
{
    let at = store.position(id);
    let before = store.get(id).task;
    lemma_apply_one(before, FieldPatchView::Title(title));
    lemma_apply_one(before, FieldPatchView::Priority(priority));
    lemma_apply_one(before, FieldPatchView::Due(due));
    let by_title = title_request(Some(id), title)->Ok_0;
    ids_stay_apart(store, by_title, new_id);
    assert(store.next(by_title, new_id).records[at].id == id);
    lemma_position(store.next(by_title, new_id), id, at);
    let by_priority = priority_request(Some(id), priority)->Ok_0;
    ids_stay_apart(store, by_priority, new_id);
    assert(store.next(by_priority, new_id).records[at].id == id);
    lemma_position(store.next(by_priority, new_id), id, at);
    let by_due = due_request(Some(id), due)->Ok_0;
    ids_stay_apart(store, by_due, new_id);
    assert(store.next(by_due, new_id).records[at].id == id);
    lemma_position(store.next(by_due, new_id), id, at);
}

/// Giving a task the same priority twice succeeds both times, leaves the task
/// with that priority, and the second update changes nothing.
pub proof fn priority_update_is_idempotent(
    store: StoreModel,
    id: Seq<char>,
    priority: Priority,
    new_id: Seq<char>,
)
    requires
        store.wf(),
        store.has(id),
    ensures
        priority_request(Some(id), priority) is Ok,
        ({
            let request = priority_request(Some(id), priority)->Ok_0;
            let once = store.next(request, new_id);
            let twice = once.next(request, new_id);
            &&& updated(store.reply(request, new_id)) == Ok::<(), ApiError>(())
            &&& updated(once.reply(request, new_id)) == Ok::<(), ApiError>(())
            &&& once.has(id)
            &&& once.get(id).task.priority == priority
            &&& twice == once
        }),
{
    let request = priority_request(Some(id), priority)->Ok_0;
    let once = store.next(request, new_id);
    let twice = once.next(request, new_id);
    let at = store.position(id);
    lemma_apply_one(store.get(id).task, FieldPatchView::Priority(priority));
    ids_stay_apart(store, request, new_id);
    assert(once.records[at].id == id);
    lemma_position(once, id, at);
    lemma_apply_one(once.get(id).task, FieldPatchView::Priority(priority));
    assert(twice.records =~= once.records);
}

/// The patches that keep a well-formed task well-formed: one new title that
/// is not empty, one new priority, one new due date that is an instant or
/// none, `done` set to false, or `done` set to true together with the instant.
pub open spec fn sound_patches(patches: Seq<FieldPatchView>) -> bool {
    ||| patches.len() == 1 && match patches[0] {
        FieldPatchView::Title(title) => title.len() > 0,
        FieldPatchView::Priority(_) => true,
        FieldPatchView::Due(due) => due is Some ==> due->0.wf(),
        FieldPatchView::Done(done) => !done,
        FieldPatchView::DoneAt(_) => false,
    }
    ||| patches.len() == 2 && patches[0] == FieldPatchView::Done(true) && patches[1] is DoneAt
        && patches[1]->DoneAt_0.wf()
}

/// The requests that keep well-formed tasks well-formed.
pub open spec fn sound(request: RequestView) -> bool {
    match request {
        RequestView::Create(task) => task.wf(),
        RequestView::ListAll => true,
        RequestView::Delete(_) => true,
        RequestView::Patch(_, patches) => sound_patches(patches),
    }
}

/// Every task in the store is well-formed.
pub open spec fn tasks_wf(store: StoreModel) -> bool {
    forall|i: int| 0 <= i < store.records.len() ==> (#[trigger] store.records[i]).task.wf()
}

/// Whatever a handler asks of the store is sound, given that the instant it
/// was handed is an instant.
pub proof fn handlers_ask_soundly(
    id: Option<Seq<char>>,
    title: Seq<char>,
    priority: Priority,
    due: Option<Timestamp>,
    value: bool,
    now: Timestamp,
)
    requires
        now.wf(),
    ensures
        sound(list_request()),
        create_request(title, priority, due) is Ok ==> sound(
            create_request(title, priority, due)->Ok_0,
        ),
        delete_request(id) is Ok ==> sound(delete_request(id)->Ok_0),
        title_request(id, title) is Ok ==> sound(title_request(id, title)->Ok_0),
        priority_request(id, priority) is Ok ==> sound(priority_request(id, priority)->Ok_0),
        due_request(id, due) is Ok ==> sound(due_request(id, due)->Ok_0),
        done_request(id, value, now) is Ok ==> sound(done_request(id, value, now)->Ok_0),
{
}

/// A sound request leaves every task in the store well-formed: with a title,
/// and, where it is done, with the instant at which it was done.
pub proof fn tasks_stay_wf(store: StoreModel, request: RequestView, new_id: Seq<char>)
    requires
        tasks_wf(store),
        sound(request),
    ensures
        tasks_wf(store.next(request, new_id)),
{
    let after = store.next(request, new_id);
    match request {
        RequestView::Create(task) => {},
        RequestView::ListAll => {},
        RequestView::Delete(id) => {
            if store.has(id) {
                let at = store.position(id);
                assert forall|i: int| 0 <= i < after.records.len() implies (
                #[trigger] after.records[i]).task.wf() by {
                    let from = if i < at {
                        i
                    } else {
                        i + 1
                    };
                    assert(store.records[from].task.wf());
                }
            }
        },
        RequestView::Patch(id, patches) => {
            if store.has(id) {
                let at = store.position(id);
                let before = store.records[at].task;
                assert(before.wf());
                if patches.len() == 1 {
                    assert(patches =~= seq![patches[0]]);
                    lemma_apply_one(before, patches[0]);
                } else {
                    assert(patches =~= seq![patches[0], patches[1]]);
                    lemma_apply_two(before, patches[0], patches[1]);
                }
                assert(apply_patches(before, patches).wf());
                assert forall|i: int| 0 <= i < after.records.len() implies (
                #[trigger] after.records[i]).task.wf() by {
                    if i != at {
                        assert(store.records[i].task.wf());
                    }
                }
            }
        },
    }
}

} // verus!

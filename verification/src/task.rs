//! Task records and the handlers that create, list, delete and update them.

use vstd::prelude::*;

use vstd::string::StringExecFns;

use crate::db_types::{StoredTaskView, Task as StoredTask};
use crate::error::ApiError;
use crate::store::{FieldPatch, FieldPatchView, ReplyView, RequestView, StoreReply, StoreRequest};
use crate::time::{utc_now, Timestamp};

verus! {

/// How pressing a task is.
#[derive(Clone, Copy, Debug, PartialEq, Eq, Structural)]
pub enum Priority {
    Urgent,
    High,
    Medium,
    Low,
}

/// A step of a task, or of another step. It has no id of its own: it is known
/// by its place in the list that holds it.
#[derive(Debug, PartialEq, Eq)]
pub struct Subtask {
    pub title: String,
    pub done: bool,
    pub sub: Vec<Subtask>,
}

/// A `Subtask` as a mathematical value.
pub struct SubtaskView {
    pub title: Seq<char>,
    pub done: bool,
    pub sub: Seq<SubtaskView>,
}

impl SubtaskView {
    /// This step and every step below it has a title.
    pub open spec fn wf(self) -> bool
        decreases self,
    {
        &&& self.title.len() > 0
        &&& forall|i: int| 0 <= i < self.sub.len() ==> (#[trigger] self.sub[i]).wf()
    }
}

/// The view of a step: its title and state, and the views of the steps below
/// it, in their order.
pub open spec fn subtask_view(step: Subtask) -> SubtaskView
    decreases step,
{
    SubtaskView {
        title: step.title@,
        done: step.done,
        sub: Seq::new(
            step.sub@.len(),
            |i: int|
                if 0 <= i < step.sub@.len() {
                    subtask_view(step.sub@[i])
                } else {
                    arbitrary()
                },
        ),
    }
}

impl View for Subtask {
    type V = SubtaskView;

    open spec fn view(&self) -> SubtaskView {
        subtask_view(*self)
    }
}

impl DeepView for Subtask {
    type V = SubtaskView;

    open spec fn deep_view(&self) -> SubtaskView {
        self@
    }
}

impl Clone for Subtask {
    /// A copy of the step and of every step below it.
    fn clone(&self) -> (copy: Self)
        ensures
            copy@ == self@,
        decreases self,
    {
        let mut sub: Vec<Subtask> = Vec::new();
        let mut i: usize = 0;
        while i < self.sub.len()
            invariant
                i <= self.sub.len(),
                sub.len() == i,
                forall|k: int| 0 <= k < i ==> sub[k]@ == self.sub[k]@,
            decreases self.sub.len() - i,
        {
            let child = self.sub[i].clone();
            sub.push(child);
            i += 1;
        }
        let copy = Subtask { title: self.title.clone(), done: self.done, sub };
        assert(copy@.sub =~= self@.sub);
        copy
    }
}

/// A copy of a list of steps.
pub fn clone_steps(steps: &Vec<Subtask>) -> (copy: Vec<Subtask>)
    ensures
        copy.deep_view() == steps.deep_view(),
{
    let mut copy: Vec<Subtask> = Vec::new();
    let mut i: usize = 0;
    while i < steps.len()
        invariant
            i <= steps.len(),
            copy.len() == i,
            forall|k: int| 0 <= k < i ==> copy[k]@ == steps[k]@,
        decreases steps.len() - i,
    {
        copy.push(steps[i].clone());
        i += 1;
    }
    assert(copy.deep_view() =~= steps.deep_view());
    copy
}

/// What a task holds, apart from the id that the store gives it.
#[derive(Debug, PartialEq, Eq)]
pub struct Task {
    pub title: String,
    pub priority: Priority,
    pub due: Option<Timestamp>,
    pub sub: Vec<Subtask>,
    pub done: bool,
    pub done_at: Option<Timestamp>,
}

/// A `Task` as a mathematical value.
pub struct TaskView {
    pub title: Seq<char>,
    pub priority: Priority,
    pub due: Option<Timestamp>,
    pub sub: Seq<SubtaskView>,
    pub done: bool,
    pub done_at: Option<Timestamp>,
}

impl TaskView {
    /// The task and its steps have titles, its instants are instants, and a
    /// task that is done has the instant at which it was done.
    pub open spec fn wf(self) -> bool {
        &&& self.title.len() > 0
        &&& self.due is Some ==> self.due->0.wf()
        &&& forall|i: int| 0 <= i < self.sub.len() ==> (#[trigger] self.sub[i]).wf()
        &&& self.done_at is Some ==> self.done_at->0.wf()
        &&& self.done ==> self.done_at is Some
    }

    /// A task as it is when created: no steps, not done.
    pub open spec fn fresh(title: Seq<char>, priority: Priority, due: Option<Timestamp>) -> TaskView {
        TaskView { title, priority, due, sub: Seq::empty(), done: false, done_at: None }
    }
}

impl View for Task {
    type V = TaskView;

    open spec fn view(&self) -> TaskView {
        TaskView {
            title: self.title@,
            priority: self.priority,
            due: self.due,
            sub: self.sub.deep_view(),
            done: self.done,
            done_at: self.done_at,
        }
    }
}

impl DeepView for Task {
    type V = TaskView;

    open spec fn deep_view(&self) -> TaskView {
        self@
    }
}

impl Clone for Task {
    /// A copy of the task and of its steps.
    fn clone(&self) -> (copy: Self)
        ensures
            copy@ == self@,
    {
        Task {
            title: self.title.clone(),
            priority: self.priority,
            due: self.due,
            sub: clone_steps(&self.sub),
            done: self.done,
            done_at: self.done_at,
        }
    }
}

/// What a client sends to have a task created.
#[derive(Debug, PartialEq, Eq)]
pub struct CreateTask {
    pub title: String,
    pub priority: Priority,
    pub due: Option<Timestamp>,
}

impl CreateTask {
    /// The input has a title, and its due date, if any, is an instant.
    pub open spec fn valid(&self) -> bool {
        &&& self.title@.len() > 0
        &&& self.due is Some ==> self.due->0.wf()
    }

    /// Whether the input makes a task.
    pub fn is_valid(&self) -> (valid: bool)
        ensures
            valid == self.valid(),
    {
        !self.title.as_str().is_empty() && match &self.due {
            Some(due) => due.is_valid(),
            None => true,
        }
    }

    /// Makes the task that this input describes: without steps and not done,
    /// whatever the client sent besides. Input without a title, or with a due
    /// date that is no instant, is rejected.
    pub fn into(self) -> (made: Result<Task, ApiError>)
        ensures
            !self.valid() ==> made == Err::<Task, ApiError>(ApiError::Validation),
            self.valid() ==> made is Ok && made->Ok_0@ == TaskView::fresh(
                self.title@,
                self.priority,
                self.due,
            ) && made->Ok_0@.wf(),
    {
        if !self.is_valid() {
            return Err(ApiError::Validation);
        }
        let task = Task {
            title: self.title,
            priority: self.priority,
            due: self.due,
            sub: Vec::new(),
            done: false,
            done_at: None,
        };
        assert(task.sub.deep_view() =~= Seq::empty());
        Ok(task)
    }
}

/// A handler's call on the store, or the error that it answers with at once.
pub open spec fn outcome(asked: Result<StoreRequest, ApiError>) -> Result<RequestView, ApiError> {
    match asked {
        Ok(request) => Ok(request@),
        Err(error) => Err(error),
    }
}

/// Listing asks the store for every task.
pub open spec fn list_request() -> RequestView {
    RequestView::ListAll
}

/// Creating asks the store to keep a task with the given title, priority and
/// due date, without steps and not done. Input without a title, or with a due
/// date that is no instant, is turned away and the store is not asked.
pub open spec fn create_request(
    title: Seq<char>,
    priority: Priority,
    due: Option<Timestamp>,
) -> Result<RequestView, ApiError> {
    if title.len() == 0 || (due is Some && !due->0.wf()) {
        Err(ApiError::Validation)
    } else {
        Ok(RequestView::Create(TaskView::fresh(title, priority, due)))
    }
}

/// Deleting asks the store to drop the task with the id. A request that
/// reached the handler without an id is an internal error.
pub open spec fn delete_request(id: Option<Seq<char>>) -> Result<RequestView, ApiError> {
    match id {
        Some(id) => Ok(RequestView::Delete(id)),
        None => Err(ApiError::Internal),
    }
}

/// An update asks the store to patch the task with the id. A request that
/// reached the handler without an id is an internal error.
pub open spec fn patch_request(id: Option<Seq<char>>, patches: Seq<FieldPatchView>) -> Result<
    RequestView,
    ApiError,
> {
    match id {
        Some(id) => Ok(RequestView::Patch(id, patches)),
        None => Err(ApiError::Internal),
    }
}

/// A new title replaces the title. An empty one is turned away.
pub open spec fn title_request(id: Option<Seq<char>>, title: Seq<char>) -> Result<
    RequestView,
    ApiError,
> {
    if id is Some && title.len() == 0 {
        Err(ApiError::Validation)
    } else {
        patch_request(id, seq![FieldPatchView::Title(title)])
    }
}

/// A new priority replaces the priority.
pub open spec fn priority_request(id: Option<Seq<char>>, priority: Priority) -> Result<
    RequestView,
    ApiError,
> {
    patch_request(id, seq![FieldPatchView::Priority(priority)])
}

/// A new due date, or none, replaces the due date. One that is no instant is
/// turned away.
pub open spec fn due_request(id: Option<Seq<char>>, due: Option<Timestamp>) -> Result<
    RequestView,
    ApiError,
> {
    if id is Some && due is Some && !due->0.wf() {
        Err(ApiError::Validation)
    } else {
        patch_request(id, seq![FieldPatchView::Due(due)])
    }
}

/// What marking a task changes. Marking it done sets `done` and, in the same
/// patch, the instant at which it was done. Marking it not done sets `done`
/// alone and leaves the instant as it is.
pub open spec fn done_patches(value: bool, now: Timestamp) -> Seq<FieldPatchView> {
    if value {
        seq![FieldPatchView::Done(true), FieldPatchView::DoneAt(now)]
    } else {
        seq![FieldPatchView::Done(false)]
    }
}

/// Marking a task done or not done at the instant `now`.
pub open spec fn done_request(id: Option<Seq<char>>, value: bool, now: Timestamp) -> Result<
    RequestView,
    ApiError,
> {
    patch_request(id, done_patches(value, now))
}

/// A text between double quotes: the body that carries a new id back.
pub open spec fn quoted(id: Seq<char>) -> Seq<char> {
    "\""@ + id + "\""@
}

/// The answer to a listing: the tasks that the store handed out. Any other
/// reply is an internal error.
pub open spec fn listed(reply: ReplyView) -> Result<Seq<StoredTaskView>, ApiError> {
    match reply {
        ReplyView::Listed(all) => Ok(all),
        _ => Err(ApiError::Internal),
    }
}

/// The answer to a creation: the id that the store gave the task. A reply
/// without a stored task, or any other reply, is an internal error.
pub open spec fn created(reply: ReplyView) -> Result<Seq<char>, ApiError> {
    match reply {
        ReplyView::Created(Some(stored)) => Ok(stored.id),
        _ => Err(ApiError::Internal),
    }
}

/// The answer to a deletion: success where there was a task to drop,
/// `NotFound` where there was none. Any other reply is an internal error.
pub open spec fn deleted(reply: ReplyView) -> Result<(), ApiError> {
    match reply {
        ReplyView::Deleted(true) => Ok(()),
        ReplyView::Deleted(false) => Err(ApiError::NotFound),
        _ => Err(ApiError::Internal),
    }
}

/// The answer to an update: success where the store handed back the updated
/// task, `NotFound` where it handed back none. Any other reply is an internal
/// error.
pub open spec fn updated(reply: ReplyView) -> Result<(), ApiError> {
    match reply {
        ReplyView::Patched(Some(_)) => Ok(()),
        ReplyView::Patched(None) => Err(ApiError::NotFound),
        _ => Err(ApiError::Internal),
    }
}

fn single_patch(id: Option<String>, patch: FieldPatch) -> (asked: Result<StoreRequest, ApiError>)
    ensures
        outcome(asked) == patch_request(id.deep_view(), seq![patch@]),
{
    match id {
        Some(id) => {
            let mut patches: Vec<FieldPatch> = Vec::new();
            patches.push(patch);
            assert(patches.deep_view() =~= seq![patch@]);
            Ok(StoreRequest::Patch(id, patches))
        },
        None => Err(ApiError::Internal),
    }
}

fn mark(value: bool, now: Timestamp) -> (patches: Vec<FieldPatch>)
    ensures
        patches.deep_view() == done_patches(value, now),
{
    let mut patches: Vec<FieldPatch> = Vec::new();
    patches.push(FieldPatch::Done(value));
    if value {
        patches.push(FieldPatch::DoneAt(now));
    }
    assert(patches.deep_view() =~= done_patches(value, now));
    patches
}

/// The store call that lists the tasks.
pub fn get_tasks() -> (asked: StoreRequest)
    ensures
        asked@ == list_request(),
{
    StoreRequest::ListAll
}

/// The store call that creates the task described by `task_info`, or
/// `Validation` where the input makes no task.
pub fn create_task(task_info: CreateTask) -> (asked: Result<StoreRequest, ApiError>)
    ensures
        outcome(asked) == create_request(task_info.title@, task_info.priority, task_info.due),
{
    match task_info.into() {
        Ok(task) => Ok(StoreRequest::Create(task)),
        Err(error) => Err(error),
    }
}

/// The store call that deletes the task with the id.
pub fn delete_task(id: Option<String>) -> (asked: Result<StoreRequest, ApiError>)
    ensures
        outcome(asked) == delete_request(id.deep_view()),
{
    match id {
        Some(id) => Ok(StoreRequest::Delete(id)),
        None => Err(ApiError::Internal),
    }
}

/// The store call that gives the task with the id a new title.
pub fn update_title(id: Option<String>, new_title: String) -> (asked: Result<
    StoreRequest,
    ApiError,
>)
    ensures
        outcome(asked) == title_request(id.deep_view(), new_title@),
{
    if id.is_some() && new_title.as_str().is_empty() {
        return Err(ApiError::Validation);
    }
    single_patch(id, FieldPatch::Title(new_title))
}

/// The store call that gives the task with the id a new priority.
pub fn update_priority(id: Option<String>, new_priority: Priority) -> (asked: Result<
    StoreRequest,
    ApiError,
>)
    ensures
        outcome(asked) == priority_request(id.deep_view(), new_priority),
{
    single_patch(id, FieldPatch::Priority(new_priority))
}

/// The store call that gives the task with the id a new due date, or takes
/// its due date away.
pub fn update_due_date(id: Option<String>, new_date: Option<Timestamp>) -> (asked: Result<
    StoreRequest,
    ApiError,
>)
    ensures
        outcome(asked) == due_request(id.deep_view(), new_date),
{
    if id.is_some() {
        if let Some(date) = &new_date {
            if !date.is_valid() {
                return Err(ApiError::Validation);
            }
        }
    }
    single_patch(id, FieldPatch::Due(new_date))
}

/// The store call that marks the task with the id done or not done, where
/// `now` is the instant of the update.
pub fn update_done_at(id: Option<String>, new_value: bool, now: Timestamp) -> (asked: Result<
    StoreRequest,
    ApiError,
>)
    ensures
        outcome(asked) == done_request(id.deep_view(), new_value, now),
{
    match id {
        Some(id) => Ok(StoreRequest::Patch(id, mark(new_value, now))),
        None => Err(ApiError::Internal),
    }
}

/// The store call that marks the task with the id done or not done. The
/// instant of the update is read from the clock, once the id is there and only
/// where the task is marked done.
pub fn update_done(id: Option<String>, new_value: bool) -> (asked: Result<StoreRequest, ApiError>)
    ensures
        exists|now: Timestamp|
            now.wf() && outcome(asked) == #[trigger] done_request(id.deep_view(), new_value, now),
{
    let epoch = Timestamp { secs: 0, nanos: 0 };
    if id.is_some() && new_value {
        let now = utc_now();
        let asked = update_done_at(id, new_value, now);
        assert(now.wf() && outcome(asked) == done_request(id.deep_view(), new_value, now));
        asked
    } else {
        let asked = update_done_at(id, new_value, epoch);
        assert(epoch.wf() && outcome(asked) == done_request(id.deep_view(), new_value, epoch));
        asked
    }
}

/// The answer to a listing, from the store's reply.
pub fn answer_list(reply: StoreReply) -> (answer: Result<Vec<StoredTask>, ApiError>)
    ensures
        listed(reply@) == match answer {
            Ok(all) => Ok::<Seq<StoredTaskView>, ApiError>(all.deep_view()),
            Err(error) => Err(error),
        },
{
    match reply {
        StoreReply::Listed(all) => Ok(all),
        _ => Err(ApiError::Internal),
    }
}

/// The answer to a creation, from the store's reply.
pub fn answer_create(reply: &StoreReply) -> (answer: Result<String, ApiError>)
    ensures
        created(reply@) == match answer {
            Ok(id) => Ok::<Seq<char>, ApiError>(id@),
            Err(error) => Err(error),
        },
{
    match reply {
        StoreReply::Created(Some(stored)) => Ok(stored.id.clone()),
        _ => Err(ApiError::Internal),
    }
}

/// The body that carries a new id back: the id between double quotes, with
/// nothing in it changed.
pub fn id_body(id: &str) -> (body: String)
    ensures
        body@ == quoted(id@),
{
    "\"".to_owned().concat(id).concat("\"")
}

/// The answer to a deletion, from the store's reply.
pub fn answer_delete(reply: &StoreReply) -> (answer: Result<(), ApiError>)
    ensures
        answer == deleted(reply@),
{
    match reply {
        StoreReply::Deleted(true) => Ok(()),
        StoreReply::Deleted(false) => Err(ApiError::NotFound),
        _ => Err(ApiError::Internal),
    }
}

/// The answer to an update, from the store's reply.
pub fn answer_update(reply: &StoreReply) -> (answer: Result<(), ApiError>)
    ensures
        answer == updated(reply@),
{
    match reply {
        StoreReply::Patched(Some(_)) => Ok(()),
        StoreReply::Patched(None) => Err(ApiError::NotFound),
        _ => Err(ApiError::Internal),
    }
}

} // verus!

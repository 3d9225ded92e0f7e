//! Tasks as the store keeps them.

use vstd::prelude::*;

use crate::task::{clone_steps, Priority, Subtask, TaskView};
use crate::time::Timestamp;

verus! {

/// A task as the store holds it: what the task holds, under the id that the
/// store gave it when it was created.
#[derive(Debug, PartialEq, Eq)]
pub struct Task {
    pub id: String,
    pub title: String,
    pub priority: Priority,
    pub due: Option<Timestamp>,
    pub sub: Vec<Subtask>,
    pub done: bool,
    pub done_at: Option<Timestamp>,
}

/// A stored task as a mathematical value.
pub struct StoredTaskView {
    pub id: Seq<char>,
    pub task: TaskView,
}

impl View for Task {
    type V = StoredTaskView;

    open spec fn view(&self) -> StoredTaskView {
        StoredTaskView {
            id: self.id@,
            task: TaskView {
                title: self.title@,
                priority: self.priority,
                due: self.due,
                sub: self.sub.deep_view(),
                done: self.done,
                done_at: self.done_at,
            },
        }
    }
}

impl DeepView for Task {
    type V = StoredTaskView;

    open spec fn deep_view(&self) -> StoredTaskView {
        self@
    }
}

impl Clone for Task {
    /// A copy of the stored task and of its steps.
    fn clone(&self) -> (copy: Self)
        ensures
            copy@ == self@,
    {
        Task {
            id: self.id.clone(),
            title: self.title.clone(),
            priority: self.priority,
            due: self.due,
            sub: clone_steps(&self.sub),
            done: self.done,
            done_at: self.done_at,
        }
    }
}

impl Task {
    /// The task `content` as stored under `id`.
    pub fn stored(id: String, content: crate::task::Task) -> (kept: Task)
        ensures
            kept@ == (StoredTaskView { id: id@, task: content@ }),
    {
        Task {
            id,
            title: content.title,
            priority: content.priority,
            due: content.due,
            sub: content.sub,
            done: content.done,
            done_at: content.done_at,
        }
    }
}

} // verus!

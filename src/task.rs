//! The task catalogue as the runner reads it.
use vstd::prelude::*;

verus! {

/// The first sub-task of a task: the token that its actions carry, and its title.
#[derive(Debug)]
pub struct SubTask {
    pub token: String,
    pub title: String,
}

/// One entry of the task catalogue.
#[derive(Debug)]
pub struct Task {
    pub task_id: u64,
    pub name: String,
    /// 0 not started, 1 in progress, 2 completed.
    pub status: u64,
    /// Seconds to dwell between starting and completing a sub-task.
    pub wait_duration: u64,
    pub max_times: u64,
    /// Attempts already made.
    pub times: u64,
    pub sub_task: Option<SubTask>,
}

/// A sub-task as plain text.
pub struct SubTaskView {
    pub token: Seq<char>,
    pub title: Seq<char>,
}

/// A task as plain values.
pub struct TaskView {
    pub task_id: u64,
    pub name: Seq<char>,
    pub status: u64,
    pub wait_duration: u64,
    pub max_times: u64,
    pub times: u64,
    pub sub_task: Option<SubTaskView>,
}

impl View for SubTask {
    type V = SubTaskView;

    open spec fn view(&self) -> SubTaskView {
        SubTaskView { token: self.token@, title: self.title@ }
    }
}

impl View for Task {
    type V = TaskView;

    open spec fn view(&self) -> TaskView {
        TaskView {
            task_id: self.task_id,
            name: self.name@,
            status: self.status,
            wait_duration: self.wait_duration,
            max_times: self.max_times,
            times: self.times,
            sub_task: match self.sub_task {
                Some(st) => Some(st@),
                None => None,
            },
        }
    }
}

/// The views of a list of tasks, in order.
pub open spec fn task_views(ts: Seq<Task>) -> Seq<TaskView> {
    ts.map_values(|t: Task| t@)
}

/// The status value of a completed task.
pub const COMPLETED: u64 = 2;

/// How many start/complete attempts a task gets when the run reaches it:
/// none once completed, else what is left of `max_times`.
pub open spec fn attempts(t: Task) -> nat {
    if t.status == COMPLETED || t.max_times <= t.times {
        0
    } else {
        (t.max_times - t.times) as nat
    }
}

impl Task {
    pub fn remaining_attempts(&self) -> (r: u64)
        ensures
            r == attempts(*self),
    {
        if self.status == COMPLETED || self.max_times <= self.times {
            0
        } else {
            self.max_times - self.times
        }
    }
}

} // verus!

//! Tasks: their identifiers, priorities and states.

use vstd::prelude::*;

verus! {

/// Identifier of a task.
#[derive(Debug, Clone, Copy, PartialEq, Eq, Structural)]
pub struct TaskId(pub u64);

impl TaskId {
    /// Issues the next task identifier: the counter's value, after which
    /// the counter moves on by one, and to zero from the largest value.
    pub fn new(counter: &mut u64) -> (id: TaskId)
        ensures
            id.0 == *old(counter),
            *final(counter) == if *old(counter) == u64::MAX {
                0
            } else {
                *old(counter) + 1
            },
    {
        let id = TaskId(*counter);
        *counter = counter.wrapping_add(1);
        id
    }
}

/// How urgent a task is.
#[derive(Debug, Clone, Copy, PartialEq, Eq, Structural)]
pub enum TaskPriority {
    Low,
    Mediocre,
    Medium,
    Boosted,
    High,
    Critical,
}

impl Default for TaskPriority {
    fn default() -> (p: TaskPriority)
        ensures
            p == TaskPriority::Medium,
    {
        TaskPriority::Medium
    }
}

/// Where a task is in its life.
#[derive(Debug, Clone, Copy, PartialEq, Eq, Structural)]
pub enum TaskStatus {
    New,
    Running,
    Waiting,
    Ready,
    Terminated,
}

impl Default for TaskStatus {
    fn default() -> (s: TaskStatus)
        ensures
            s == TaskStatus::New,
    {
        TaskStatus::New
    }
}

/// A task that the scheduler knows.
#[derive(Debug, Clone, Copy, PartialEq, Eq, Structural)]
pub struct Task {
    pub id: TaskId,
    pub priority: TaskPriority,
    pub status: TaskStatus,
}

impl Task {
    /// A new task with the next identifier, of medium priority.
    pub fn new(counter: &mut u64) -> (t: Task)
        ensures
            t == (Task {
                id: TaskId(*old(counter)),
                priority: TaskPriority::Medium,
                status: TaskStatus::New,
            }),
            *final(counter) == if *old(counter) == u64::MAX {
                0
            } else {
                *old(counter) + 1
            },
    {
        Task {
            id: TaskId::new(counter),
            priority: TaskPriority::default(),
            status: TaskStatus::default(),
        }
    }
}

/// A task that runs to its end when it is run.
#[derive(Debug, Clone, Copy, PartialEq, Eq, Structural)]
pub struct SyncTask {
    pub id: TaskId,
}

impl SyncTask {
    /// A new task with the next identifier.
    pub fn new(counter: &mut u64) -> (t: SyncTask)
        ensures
            t.id == TaskId(*old(counter)),
            *final(counter) == if *old(counter) == u64::MAX {
                0
            } else {
                *old(counter) + 1
            },
    {
        SyncTask { id: TaskId::new(counter) }
    }
}

/// An executor for tasks that stay on one thread.
#[derive(Debug, Clone, Copy, PartialEq, Eq, Structural)]
pub struct LocalExecutor {}

} // verus!

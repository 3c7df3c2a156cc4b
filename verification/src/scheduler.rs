//! The scheduler: the tasks it knows, and the queue of those that are
//! ready to run. The queue is a bounded `crossbeam` queue.

use crate::task::{Task, TaskId};
use crossbeam::queue::ArrayQueue;
use std::collections::BTreeMap;
use vstd::prelude::*;

verus! {

#[verifier::external_type_specification]
#[verifier::external_body]
#[verifier::reject_recursive_types(T)]
pub struct ExArrayQueue<T>(ArrayQueue<T>);

/// The identifiers that wait in a queue, oldest first.
pub uninterp spec fn queued(queue: ArrayQueue<u64>) -> Seq<u64>;

/// The number of identifiers that a queue holds at most.
pub uninterp spec fn queue_capacity(queue: ArrayQueue<u64>) -> nat;

/// Number of tasks that can wait to run.
pub const QUEUE_CAPACITY: usize = 100;

/// `ArrayQueue::new`: an empty queue of the given capacity. The function
/// panics for a capacity of zero, and for one so large that the next power
/// of two above it does not fit in a `usize`.
#[verifier::external_body]
fn new_queue(cap: usize) -> (queue: ArrayQueue<u64>)
    requires
        0 < cap <= 0x4000_0000,
    ensures
        queued(queue) == Seq::<u64>::empty(),
        queue_capacity(queue) == cap,
{
    ArrayQueue::new(cap)
}

/// `ArrayQueue::push_mut`: puts a value at the back of the queue, or hands
/// it back when the queue is full.
#[verifier::external_body]
fn queue_push(queue: &mut ArrayQueue<u64>, value: u64) -> (r: Result<(), u64>)
    ensures
        match r {
            Ok(()) => {
                &&& queued(*old(queue)).len() < queue_capacity(*old(queue))
                &&& queued(*final(queue)) == queued(*old(queue)).push(value)
                &&& queue_capacity(*final(queue)) == queue_capacity(*old(queue))
            },
            Err(back) => {
                &&& back == value
                &&& queued(*old(queue)).len() >= queue_capacity(*old(queue))
                &&& queued(*final(queue)) == queued(*old(queue))
                &&& queue_capacity(*final(queue)) == queue_capacity(*old(queue))
            },
        },
{
    queue.push_mut(value)
}

/// `ArrayQueue::pop_mut`: takes the value at the front of the queue, if
/// there is one.
#[verifier::external_body]
fn queue_pop(queue: &mut ArrayQueue<u64>) -> (r: Option<u64>)
    ensures
        match r {
            Some(front) => {
                &&& queued(*old(queue)).len() > 0
                &&& front == queued(*old(queue))[0]
                &&& queued(*final(queue)) == queued(*old(queue)).drop_first()
                &&& queue_capacity(*final(queue)) == queue_capacity(*old(queue))
            },
            None => {
                &&& queued(*old(queue)).len() == 0
                &&& queued(*final(queue)) == queued(*old(queue))
                &&& queue_capacity(*final(queue)) == queue_capacity(*old(queue))
            },
        },
{
    queue.pop_mut()
}

/// `ArrayQueue::is_full`: whether the queue holds as many values as it
/// can.
#[verifier::external_body]
fn queue_is_full(queue: &ArrayQueue<u64>) -> (full: bool)
    ensures
        full == (queued(*queue).len() >= queue_capacity(*queue)),
{
    queue.is_full()
}

/// Why a task could not be spawned.
#[derive(Debug, Clone, Copy, PartialEq, Eq, Structural)]
pub enum SpawnError {
    /// A task with the same identifier is known already.
    DuplicateId,
    /// The queue of ready tasks is full.
    QueueFull,
}

/// The scheduler.
pub struct Scheduler {
    tasks: BTreeMap<u64, Task>,
    task_queue: ArrayQueue<u64>,
}

impl Scheduler {
    /// The tasks that the scheduler knows, by identifier.
    pub closed spec fn tasks(&self) -> Map<u64, Task> {
        self.tasks@
    }

    /// The identifiers of the tasks that wait to run, oldest first.
    pub closed spec fn ready(&self) -> Seq<u64> {
        queued(self.task_queue)
    }

    /// The scheduler's invariant, which every operation keeps.
    pub closed spec fn wf(&self) -> bool {
        &&& queue_capacity(self.task_queue) == QUEUE_CAPACITY
        &&& queued(self.task_queue).len() <= QUEUE_CAPACITY
    }

    /// A scheduler that knows no task.
    pub fn new() -> (s: Scheduler)
        ensures
            s.wf(),
            s.tasks() == Map::<u64, Task>::empty(),
            s.ready() == Seq::<u64>::empty(),
    {
        Scheduler { tasks: BTreeMap::new(), task_queue: new_queue(QUEUE_CAPACITY) }
    }

    /// Whether a task with identifier `id` is known.
    pub fn knows(&self, id: TaskId) -> (r: bool)
        ensures
            r == self.tasks().contains_key(id.0),
    {
        broadcast use {vstd::std_specs::btree::group_btree_axioms, vstd::laws_cmp::group_laws_cmp};

        assert(vstd::laws_cmp::obeys_cmp::<u64>());
        self.tasks.contains_key(&id.0)
    }

    /// Whether no further task can wait to run.
    pub fn is_full(&self) -> (r: bool)
        requires
            self.wf(),
        ensures
            r == (self.ready().len() == QUEUE_CAPACITY),
    {
        queue_is_full(&self.task_queue)
    }

    /// Makes `task` known and puts it at the back of the queue of ready
    /// tasks. The task's identifier has to be new and the queue must have
    /// room.
    pub fn spawn(&mut self, task: Task)
        requires
            old(self).wf(),
            !old(self).tasks().contains_key(task.id.0),
            old(self).ready().len() < QUEUE_CAPACITY,
        ensures
            final(self).wf(),
            final(self).tasks() == old(self).tasks().insert(task.id.0, task),
            final(self).ready() == old(self).ready().push(task.id.0),
    {
        broadcast use {vstd::std_specs::btree::group_btree_axioms, vstd::laws_cmp::group_laws_cmp};

        assert(vstd::laws_cmp::obeys_cmp::<u64>());
        let task_id = task.id.0;
        self.tasks.insert(task_id, task);
        let pushed = queue_push(&mut self.task_queue, task_id);
        assert(pushed is Ok);
    }

    /// Spawns `task` as [`Scheduler::spawn`] does, or says why it cannot:
    /// its identifier is known already, or the queue of ready tasks is
    /// full. In that case nothing changes.
    pub fn try_spawn(&mut self, task: Task) -> (r: Result<(), SpawnError>)
        requires
            old(self).wf(),
        ensures
            final(self).wf(),
            r == if old(self).tasks().contains_key(task.id.0) {
                Err::<(), SpawnError>(SpawnError::DuplicateId)
            } else if old(self).ready().len() == QUEUE_CAPACITY {
                Err::<(), SpawnError>(SpawnError::QueueFull)
            } else {
                Ok::<(), SpawnError>(())
            },
            r is Ok ==> final(self).tasks() == old(self).tasks().insert(task.id.0, task)
                && final(self).ready() == old(self).ready().push(task.id.0),
            r is Err ==> final(self).tasks() == old(self).tasks()
                && final(self).ready() == old(self).ready(),
    {
        if self.knows(task.id) {
            return Err(SpawnError::DuplicateId);
        }
        if self.is_full() {
            return Err(SpawnError::QueueFull);
        }
        self.spawn(task);
        Ok(())
    }

    /// Puts the task with identifier `id` at the back of the queue of ready
    /// tasks once more, as a waker does. Nothing happens, and `false` is
    /// returned, when no such task is known or the queue is full.
    pub fn wake(&mut self, id: TaskId) -> (woken: bool)
        requires
            old(self).wf(),
        ensures
            final(self).wf(),
            final(self).tasks() == old(self).tasks(),
            woken == (old(self).tasks().contains_key(id.0) && old(self).ready().len()
                < QUEUE_CAPACITY),
            final(self).ready() == if woken {
                old(self).ready().push(id.0)
            } else {
                old(self).ready()
            },
    {
        if !self.knows(id) || self.is_full() {
            return false;
        }
        let pushed = queue_push(&mut self.task_queue, id.0);
        assert(pushed is Ok);
        true
    }

    /// Takes the task that has waited longest from the queue of ready
    /// tasks and returns its identifier, if a task waits.
    pub fn next_ready(&mut self) -> (r: Option<TaskId>)
        requires
            old(self).wf(),
        ensures
            final(self).wf(),
            final(self).tasks() == old(self).tasks(),
            old(self).ready().len() == 0 ==> r is None && final(self).ready() == old(self).ready(),
            old(self).ready().len() > 0 ==> r == Some(TaskId(old(self).ready()[0]))
                && final(self).ready() == old(self).ready().drop_first(),
    {
        match queue_pop(&mut self.task_queue) {
            Some(id) => Some(TaskId(id)),
            None => None,
        }
    }
}

} // verus!

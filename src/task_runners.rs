//! Task runners that the embedder supplies in place of engine-managed
//! threads, and the tasks that the engine posts to them.
use vstd::prelude::*;

use crate::error::Error;

verus! {

/// A task that the engine posted to a runner: the pair of the runner's and
/// the task's native identities, which must be fed back unchanged.
#[derive(Debug, Clone, Copy, PartialEq, Eq, Hash, Structural)]
pub struct Task {
    runner: u64,
    task: u64,
}

impl Task {
    pub closed spec fn runner_id(&self) -> u64 {
        self.runner
    }

    pub closed spec fn task_id(&self) -> u64 {
        self.task
    }

    /// The task with the given native identities, as the engine posts it.
    pub fn new(runner: u64, task: u64) -> (r: Task)
        ensures
            r.runner_id() == runner,
            r.task_id() == task,
    {
        Task { runner, task }
    }

    /// The native identity of the task.
    pub fn task(&self) -> (r: u64)
        ensures
            r == self.task_id(),
    {
        self.task
    }

    /// The native identity of the runner that the task was posted to.
    pub fn runner(&self) -> (r: u64)
        ensures
            r == self.runner_id(),
    {
        self.runner
    }
}

/// The embedder's side of a task runner. There should be one runner per
/// thread; running a task on a thread that is not its runner's is undefined
/// behavior of the engine.
pub trait TaskRunnerHandler {
    /// Whether tasks posted from the calling thread run on that thread.
    fn runs_task_on_current_thread(&self) -> bool;

    /// `task` is to be run on this runner's thread, by handing it back to
    /// the engine, at the absolute monotonic time `target_time_nanos`.
    fn post_task(&self, target_time_nanos: u64, task: Task);
}

/// A task runner that the embedder supplies.
pub struct TaskRunnerDescription<H: TaskRunnerHandler> {
    /// Identifies the runner; runners that serve the same thread share it.
    pub identifier: usize,
    pub handler: H,
}

/// The runners that replace engine-managed threads; a role left `None` is
/// served by the engine itself.
pub struct CustomTaskRunners<H: TaskRunnerHandler> {
    /// The runner of the thread that started the engine.
    pub platform_task_runner: Option<TaskRunnerDescription<H>>,
    /// The runner of the thread that runs rendering commands.
    pub render_task_runner: Option<TaskRunnerDescription<H>>,
}

/// The engine posts `task` to a runner: it is recorded as waiting for its
/// target time, then handed to the embedder.
pub fn post_task<H: TaskRunnerHandler>(
    handler: &H,
    schedule: &mut TaskSchedule,
    task: Task,
    target_time_nanos: u64,
)
    ensures
        final(schedule)@ == old(schedule)@.push(PostedTask { task, target_time_nanos }),
{
    schedule.post(task, target_time_nanos);
    handler.post_task(target_time_nanos, task);
}

/// A task waiting for its target time.
#[derive(Debug, Clone, Copy, PartialEq, Eq, Hash, Structural)]
pub struct PostedTask {
    pub task: Task,
    pub target_time_nanos: u64,
}

/// Whether `posted` is `task` and may run at time `now_nanos`.
pub open spec fn is_due(posted: PostedTask, task: Task, now_nanos: u64) -> bool {
    posted.task == task && posted.target_time_nanos <= now_nanos
}

/// The tasks that were posted and not yet run. A task goes back to the
/// engine only through [`TaskSchedule::take_due`], which refuses it before
/// its target time.
pub struct TaskSchedule {
    posted: Vec<PostedTask>,
}

impl View for TaskSchedule {
    type V = Seq<PostedTask>;

    closed spec fn view(&self) -> Seq<PostedTask> {
        self.posted@
    }
}

impl TaskSchedule {
    pub fn new() -> (r: TaskSchedule)
        ensures
            r@ == Seq::<PostedTask>::empty(),
    {
        TaskSchedule { posted: Vec::new() }
    }

    /// Records a task that the engine posted.
    pub fn post(&mut self, task: Task, target_time_nanos: u64)
        ensures
            final(self)@ == old(self)@.push(PostedTask { task, target_time_nanos }),
    {
        self.posted.push(PostedTask { task, target_time_nanos });
    }

    /// Takes `task` out to be run at time `now_nanos`. A task that was not
    /// posted, or whose target time has not come, is refused with
    /// `InvalidArguments` and stays where it is.
    pub fn take_due(&mut self, task: Task, now_nanos: u64) -> (r: Result<(), Error>)
        ensures
            r is Ok <==> exists|i: int| 0 <= i < old(self)@.len() && is_due(old(self)@[i], task, now_nanos),
            r is Ok ==> exists|i: int|
                0 <= i < old(self)@.len() && is_due(old(self)@[i], task, now_nanos) && final(self)@
                    == old(self)@.remove(i),
            r is Err ==> r == Err::<(), Error>(Error::InvalidArguments) && final(self)@ == old(self)@,
    {
        let mut i: usize = 0;
        while i < self.posted.len()
            invariant
                i <= self.posted@.len(),
                self.posted@ == old(self)@,
                forall|j: int| 0 <= j < i ==> !is_due(#[trigger] self.posted@[j], task, now_nanos),
            decreases self.posted@.len() - i,
        {
            let posted = self.posted[i];
            if posted.task == task && posted.target_time_nanos <= now_nanos {
                self.posted.remove(i);
                return Ok(());
            }
            i = i + 1;
        }
        Err(Error::InvalidArguments)
    }
}

} // verus!

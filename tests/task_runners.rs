use std::cell::RefCell;

use fluster::task_runners::post_task;
use fluster::{Error, Task, TaskRunnerHandler, TaskSchedule};

struct Recorder {
    posted: RefCell<Vec<(u64, u64)>>,
}

impl TaskRunnerHandler for Recorder {
    fn runs_task_on_current_thread(&self) -> bool {
        true
    }

    fn post_task(&self, target_time_nanos: u64, task: Task) {
        self.posted.borrow_mut().push((target_time_nanos, task.task()));
    }
}

#[test]
fn platform_task_fed_back_before_target_is_refused_and_after_succeeds() {
    let handler = Recorder { posted: RefCell::new(Vec::new()) };
    let mut schedule = TaskSchedule::new();
    let task = Task::new(0xAA, 17);
    post_task(&handler, &mut schedule, task, 1_000);
    assert_eq!(handler.posted.borrow().as_slice(), &[(1_000, 17)]);
    assert_eq!(schedule.take_due(task, 999), Err(Error::InvalidArguments));
    assert_eq!(schedule.take_due(task, 1_000), Ok(()));
    assert_eq!(schedule.take_due(task, 5_000), Err(Error::InvalidArguments));
}

#[test]
fn task_of_another_runner_is_refused() {
    let mut schedule = TaskSchedule::new();
    schedule.post(Task::new(1, 5), 10);
    assert_eq!(schedule.take_due(Task::new(2, 5), 100), Err(Error::InvalidArguments));
    assert_eq!(schedule.take_due(Task::new(1, 5), 100), Ok(()));
}

#[test]
fn unposted_task_is_refused() {
    let mut schedule = TaskSchedule::new();
    assert_eq!(schedule.take_due(Task::new(1, 1), u64::MAX), Err(Error::InvalidArguments));
}

#[test]
fn task_keeps_its_identities() {
    let task = Task::new(3, 4);
    assert_eq!(task.runner(), 3);
    assert_eq!(task.task(), 4);
}

//! The task scheduler of the node.
//!
//! Five tasks share one core. Each has a fixed priority, and each is either
//! periodic or started by an event. The scheduler keeps, for every task, the
//! time from which it is due, and picks among the tasks that are due the one
//! of highest priority, the earliest due first. A task runs to its end; a
//! periodic one is then queued again one period after the time at which it
//! ended. Time is a count of milliseconds that never goes back.
use vstd::prelude::*;

verus! {

/// Number of tasks.
pub const TASK_COUNT: usize = 5;

/// Period of the poll task, in milliseconds.
pub const POLL_PERIOD_MS: u64 = 10;

/// Period of the link task, in milliseconds.
pub const LINK_PERIOD_MS: u64 = 1_000;

/// Period of the telemetry task, in milliseconds.
pub const TELEMETRY_PERIOD_MS: u64 = 1_000;

/// The tasks of the node.
#[derive(Copy, Clone, Debug, PartialEq, Eq, Structural)]
pub enum Task {
    /// Services the network hardware when it raises its interrupt.
    Interrupt,
    /// Observes the link.
    LinkStatus,
    /// Runs one tick of the network users.
    PollStack,
    /// Applies new settings.
    SettingsUpdate,
    /// Makes and publishes one telemetry sample.
    Telemetry,
}

/// Why a task could not be queued.
#[derive(Copy, Clone, Debug, PartialEq, Eq, Structural)]
pub enum SpawnError {
    /// The task is queued already.
    AlreadyQueued,
    /// The time at which the task would be due cannot be counted.
    TimeOverflow,
}

impl Task {
    /// The place of the task in the scheduler's table.
    pub open spec fn spec_index(self) -> int {
        match self {
            Task::Interrupt => 0,
            Task::LinkStatus => 1,
            Task::PollStack => 2,
            Task::SettingsUpdate => 3,
            Task::Telemetry => 4,
        }
    }

    /// The task at a place of the scheduler's table.
    pub open spec fn at(index: int) -> Task {
        if index == 0 {
            Task::Interrupt
        } else if index == 1 {
            Task::LinkStatus
        } else if index == 2 {
            Task::PollStack
        } else if index == 3 {
            Task::SettingsUpdate
        } else {
            Task::Telemetry
        }
    }

    /// The priority of the task: the interrupt task goes before the others,
    /// which are equals.
    pub open spec fn spec_priority(self) -> u8 {
        match self {
            Task::Interrupt => 2,
            _ => 1,
        }
    }

    /// The period of the task in milliseconds, or `None` for a task that is
    /// started by an event and runs once.
    pub open spec fn spec_period_ms(self) -> Option<u64> {
        match self {
            Task::Interrupt => None,
            Task::LinkStatus => Some(LINK_PERIOD_MS),
            Task::PollStack => Some(POLL_PERIOD_MS),
            Task::SettingsUpdate => None,
            Task::Telemetry => Some(TELEMETRY_PERIOD_MS),
        }
    }

    pub fn index(self) -> (index: usize)
        ensures
            index == self.spec_index(),
            index < TASK_COUNT,
    {
        match self {
            Task::Interrupt => 0,
            Task::LinkStatus => 1,
            Task::PollStack => 2,
            Task::SettingsUpdate => 3,
            Task::Telemetry => 4,
        }
    }

    pub fn from_index(index: usize) -> (task: Task)
        requires
            index < TASK_COUNT,
        ensures
            task == Task::at(index as int),
            task.spec_index() == index,
    {
        if index == 0 {
            Task::Interrupt
        } else if index == 1 {
            Task::LinkStatus
        } else if index == 2 {
            Task::PollStack
        } else if index == 3 {
            Task::SettingsUpdate
        } else {
            Task::Telemetry
        }
    }

    pub fn priority(self) -> (priority: u8)
        ensures
            priority == self.spec_priority(),
    {
        match self {
            Task::Interrupt => 2,
            _ => 1,
        }
    }

    pub fn period_ms(self) -> (period: Option<u64>)
        ensures
            period == self.spec_period_ms(),
    {
        match self {
            Task::Interrupt => None,
            Task::LinkStatus => Some(LINK_PERIOD_MS),
            Task::PollStack => Some(POLL_PERIOD_MS),
            Task::SettingsUpdate => None,
            Task::Telemetry => Some(TELEMETRY_PERIOD_MS),
        }
    }
}

/// Every task has its own place in the table, and every place its task.
pub proof fn lemma_task_places(task: Task, index: int)
    ensures
        0 <= task.spec_index() < TASK_COUNT,
        Task::at(task.spec_index()) == task,
        0 <= index < TASK_COUNT ==> Task::at(index).spec_index() == index,
{
}

/// Whether task `first`, due at `first_due`, goes before task `second`, due
/// at `second_due`: by priority, then by due time, then by place in the
/// table.
pub open spec fn goes_before(first: Task, first_due: u64, second: Task, second_due: u64) -> bool {
    ||| first.spec_priority() > second.spec_priority()
    ||| first.spec_priority() == second.spec_priority() && first_due < second_due
    ||| first.spec_priority() == second.spec_priority() && first_due == second_due
        && first.spec_index() <= second.spec_index()
}

/// What comes of queueing a task whose entry in the table is `queued`, at
/// `delay` milliseconds after `now`: the time from which it is due, or the
/// reason why it cannot be queued.
pub open spec fn spawn_outcome(queued: Option<u64>, now: u64, delay: u64) -> Result<
    u64,
    SpawnError,
> {
    if queued is Some {
        Err(SpawnError::AlreadyQueued)
    } else if now + delay > u64::MAX {
        Err(SpawnError::TimeOverflow)
    } else {
        Ok((now + delay) as u64)
    }
}

/// The ready queue: for each task, the time from which it is due, if it is
/// queued.
pub struct Scheduler {
    due: [Option<u64>; TASK_COUNT],
}

impl Scheduler {
    /// The time from which `task` is due, or `None` while it is not queued.
    pub closed spec fn due_of(&self, task: Task) -> Option<u64> {
        self.due@[task.spec_index()]
    }

    /// Whether `task` is queued and its time has come.
    pub open spec fn is_ready(&self, task: Task, now: u64) -> bool {
        self.due_of(task) matches Some(due) && due <= now
    }

    /// Whether `task` is the one to run at `now`: it is ready, and it goes
    /// before every other task that is ready.
    pub open spec fn is_next(&self, task: Task, now: u64) -> bool {
        &&& self.is_ready(task, now)
        &&& forall|other: Task| #[trigger]
            self.is_ready(other, now) ==> goes_before(
                task,
                self.due_of(task)->0,
                other,
                self.due_of(other)->0,
            )
    }

    /// A scheduler with no task queued.
    pub fn new() -> (scheduler: Self)
        ensures
            forall|task: Task| scheduler.due_of(task) is None,
    {
        Scheduler { due: [None; TASK_COUNT] }
    }

    /// Queues the three periodic tasks, as startup does, all due at `now`.
    /// The interrupt task is left to its interrupt and the settings task to
    /// a change of settings, and a task that is queued already stays as it
    /// is.
    pub fn start(&mut self, now: u64)
        ensures
            forall|task: Task|
                final(self).due_of(task) == if task.spec_period_ms() is None || old(self).due_of(
                    task,
                ) is Some {
                    old(self).due_of(task)
                } else {
                    Some(now)
                },
    {
        let _ = self.spawn(Task::LinkStatus, now);
        let _ = self.spawn(Task::PollStack, now);
        let _ = self.spawn(Task::Telemetry, now);
    }

    /// The time from which `task` is due, or `None` while it is not queued.
    pub fn due(&self, task: Task) -> (due: Option<u64>)
        ensures
            due == self.due_of(task),
    {
        self.due[task.index()]
    }

    /// Queues `task` to run as soon as its turn comes.
    pub fn spawn(&mut self, task: Task, now: u64) -> (spawned: Result<(), SpawnError>)
        ensures
            match spawn_outcome(old(self).due_of(task), now, 0) {
                Ok(due) => spawned is Ok && final(self).due_of(task) == Some(due),
                Err(error) => spawned == Err::<(), SpawnError>(error) && final(self).due_of(task)
                    == old(self).due_of(task),
            },
            forall|other: Task| other != task ==> final(self).due_of(other) == old(self).due_of(other),
    {
        self.spawn_after(task, now, 0)
    }

    /// Queues `task` to run `delay` milliseconds after `now`. A task that is
    /// queued already stays as it is.
    pub fn spawn_after(&mut self, task: Task, now: u64, delay: u64) -> (spawned: Result<
        (),
        SpawnError,
    >)
        ensures
            match spawn_outcome(old(self).due_of(task), now, delay) {
                Ok(due) => spawned is Ok && final(self).due_of(task) == Some(due),
                Err(error) => spawned == Err::<(), SpawnError>(error) && final(self).due_of(task)
                    == old(self).due_of(task),
            },
            forall|other: Task| other != task ==> final(self).due_of(other) == old(self).due_of(other),
    {
        let index = task.index();
        if self.due[index].is_some() {
            return Err(SpawnError::AlreadyQueued);
        }
        match now.checked_add(delay) {
            None => Err(SpawnError::TimeOverflow),
            Some(due) => {
                self.due[index] = Some(due);
                Ok(())
            },
        }
    }

    /// The task to run at `now`, if any is ready.
    pub fn next_ready(&self, now: u64) -> (next: Option<Task>)
        ensures
            match next {
                Some(task) => self.is_next(task, now),
                None => forall|task: Task| !self.is_ready(task, now),
            },
    {
        let mut best: Option<(Task, u64)> = None;
        let mut index: usize = 0;
        while index < TASK_COUNT
            invariant
                index <= TASK_COUNT,
                match best {
                    Some((task, due)) => {
                        &&& self.due_of(task) == Some(due)
                        &&& due <= now
                        &&& task.spec_index() < index
                        &&& forall|other: Task|
                            other.spec_index() < index && #[trigger] self.is_ready(other, now)
                                ==> goes_before(task, due, other, self.due_of(other)->0)
                    },
                    None => forall|other: Task|
                        other.spec_index() < index ==> !#[trigger] self.is_ready(other, now),
                },
            decreases TASK_COUNT - index,
        {
            let candidate = Task::from_index(index);
            if let Some(due) = self.due[index] {
                if due <= now {
                    let better = match best {
                        None => true,
                        Some((task, task_due)) => !Self::precedes(task, task_due, candidate, due),
                    };
                    if better {
                        best = Some((candidate, due));
                    }
                }
            }
            index += 1;
        }
        match best {
            Some((task, _)) => Some(task),
            None => None,
        }
    }

    /// Takes the task to run at `now` off the queue and returns it.
    pub fn dispatch(&mut self, now: u64) -> (next: Option<Task>)
        ensures
            match next {
                Some(task) => old(self).is_next(task, now) && final(self).due_of(task) is None,
                None => forall|task: Task| !old(self).is_ready(task, now),
            },
            forall|other: Task| Some(other) != next ==> final(self).due_of(other) == old(self).due_of(other),
    {
        let next = self.next_ready(now);
        if let Some(task) = next {
            let index = task.index();
            self.due[index] = None;
        }
        next
    }

    /// Takes note that `task` ended at `now`. A periodic task is queued
    /// again, due one period after `now`; a task that runs once is not.
    pub fn complete(&mut self, task: Task, now: u64) -> (queued: Result<(), SpawnError>)
        ensures
            match task.spec_period_ms() {
                Some(period) => match spawn_outcome(old(self).due_of(task), now, period) {
                    Ok(due) => queued is Ok && final(self).due_of(task) == Some(due),
                    Err(error) => queued == Err::<(), SpawnError>(error) && final(self).due_of(task)
                        == old(self).due_of(task),
                },
                None => queued is Ok && final(self).due_of(task) == old(self).due_of(task),
            },
            forall|other: Task| other != task ==> final(self).due_of(other) == old(self).due_of(other),
    {
        match task.period_ms() {
            Some(period) => self.spawn_after(task, now, period),
            None => Ok(()),
        }
    }

    fn precedes(first: Task, first_due: u64, second: Task, second_due: u64) -> (before: bool)
        ensures
            before == goes_before(first, first_due, second, second_due),
    {
        let first_priority = first.priority();
        let second_priority = second.priority();
        first_priority > second_priority || (first_priority == second_priority && (first_due
            < second_due || (first_due == second_due && first.index() <= second.index())))
    }
}

/// Of two tasks, one goes before the other, and only a task itself goes
/// both before and after it: the order leaves no ties.
pub proof fn lemma_order_is_total(first: Task, first_due: u64, second: Task, second_due: u64)
    ensures
        goes_before(first, first_due, second, second_due) || goes_before(
            second,
            second_due,
            first,
            first_due,
        ),
        goes_before(first, first_due, second, second_due) && goes_before(
            second,
            second_due,
            first,
            first_due,
        ) ==> first == second,
{
}

/// At any time at most one task is the one to run.
pub proof fn lemma_next_is_unique(scheduler: Scheduler, first: Task, second: Task, now: u64)
    requires
        scheduler.is_next(first, now),
        scheduler.is_next(second, now),
    ensures
        first == second,
{
    lemma_order_is_total(
        first,
        scheduler.due_of(first)->0,
        second,
        scheduler.due_of(second)->0,
    );
}

/// Rescheduling is relative: a periodic task that ends at `now` and is not
/// queued comes due one period after `now`, as long as that time can be
/// counted. The poll, link and telemetry tasks are periodic; the interrupt
/// and settings tasks run once per event.
pub proof fn lemma_rescheduling_is_relative(task: Task, now: u64)
    ensures
        task.spec_period_ms() is None <==> task == Task::Interrupt || task == Task::SettingsUpdate,
        task.spec_period_ms() matches Some(period) ==> (now + period <= u64::MAX ==> spawn_outcome(
            None,
            now,
            period,
        ) == Ok::<u64, SpawnError>((now + period) as u64)),
{
}

} // verus!

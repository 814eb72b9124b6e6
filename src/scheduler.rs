use vstd::prelude::*;

verus! {

/// When a recurring job runs and how often it is tried.
pub struct Scheduler {
    /// A cron expression with seconds.
    pub cron: String,
    /// How many times the job body is tried on each tick.
    pub retry: u32,
}

impl Scheduler {
    pub fn default_cron() -> (r: String)
        ensures
            r@ == "0 0 0 * * *"@,
    {
        String::from_str("0 0 0 * * *")
    }

    pub fn default_retry() -> (r: u32)
        ensures
            r == 1,
    {
        1
    }
}

impl Default for Scheduler {
    fn default() -> (r: Scheduler)
        ensures
            r.cron@ == "0 0 0 * * *"@,
            r.retry == 1,
    {
        Scheduler { cron: Scheduler::default_cron(), retry: Scheduler::default_retry() }
    }
}

/// A named recurring job.
pub struct Task {
    pub name: String,
    pub cron: String,
    pub retry: u32,
    /// Whether the job also runs once when it is registered.
    pub run_now: bool,
}

impl Task {
    pub fn new(name: String, schedule: Scheduler, run_now: bool) -> (r: Task)
        ensures
            r.name == name,
            r.cron == schedule.cron,
            r.retry == schedule.retry,
            r.run_now == run_now,
    {
        Task { name, cron: schedule.cron, retry: schedule.retry, run_now }
    }

    pub fn get_cron(&self) -> (r: &String)
        ensures
            *r == self.cron,
    {
        &self.cron
    }

    pub fn get_name(&self) -> (r: &String)
        ensures
            *r == self.name,
    {
        &self.name
    }

    pub fn get_retry(&self) -> (r: u32)
        ensures
            r == self.retry,
    {
        self.retry
    }

    pub fn get_run_now(&self) -> (r: bool)
        ensures
            r == self.run_now,
    {
        self.run_now
    }
}

/// The job that refreshes the on-air catalog: it also runs once at start.
pub fn task(schedule: Scheduler) -> (r: Task)
    ensures
        r.name@ == "OnAir Data Refresh"@,
        r.cron == schedule.cron,
        r.retry == schedule.retry,
        r.run_now,
{
    Task::new(String::from_str("OnAir Data Refresh"), schedule, true)
}

/// Where one tick's execution of a job stands.
#[derive(PartialEq, Eq, Structural, Clone, Copy, Debug)]
pub enum RunPhase {
    Pending,
    Running,
    Retrying,
    Succeeded,
    /// Every try failed; the job waits for its next tick.
    Failed,
}

/// One tick's execution of a job: the body is tried up to `retry` times, one
/// after another, until a try succeeds.
pub struct RetryRun {
    pub retry: u32,
    /// Tries made so far.
    pub attempts: u32,
    pub phase: RunPhase,
}

impl RetryRun {
    pub open spec fn wf(&self) -> bool {
        &&& self.attempts <= self.retry
        &&& (self.phase == RunPhase::Pending ==> self.attempts == 0)
        &&& (self.phase == RunPhase::Running ==> self.attempts >= 1)
        &&& (self.phase == RunPhase::Retrying ==> 1 <= self.attempts < self.retry)
        &&& (self.phase == RunPhase::Failed ==> self.attempts == self.retry)
    }

    pub fn new(retry: u32) -> (r: RetryRun)
        ensures
            r.wf(),
            r.retry == retry,
            r.attempts == 0,
            r.phase == RunPhase::Pending,
    {
        RetryRun { retry, attempts: 0, phase: RunPhase::Pending }
    }

    /// Begins the next try: returns whether the body is to run now. With no
    /// try left the run fails.
    pub fn begin(&mut self) -> (r: bool)
        requires
            old(self).wf(),
            old(self).phase == RunPhase::Pending || old(self).phase == RunPhase::Retrying,
        ensures
            final(self).wf(),
            final(self).retry == old(self).retry,
            r == (old(self).attempts < old(self).retry),
            r ==> final(self).phase == RunPhase::Running && final(self).attempts == old(self).attempts + 1,
            !r ==> final(self).phase == RunPhase::Failed && final(self).attempts == old(self).attempts,
    {
        if self.attempts < self.retry {
            self.attempts = self.attempts + 1;
            self.phase = RunPhase::Running;
            true
        } else {
            self.phase = RunPhase::Failed;
            false
        }
    }

    /// Takes the outcome of the try in progress.
    pub fn record(&mut self, ok: bool)
        requires
            old(self).wf(),
            old(self).phase == RunPhase::Running,
        ensures
            final(self).wf(),
            final(self).retry == old(self).retry,
            final(self).attempts == old(self).attempts,
            final(self).phase == (if ok {
                RunPhase::Succeeded
            } else if old(self).attempts < old(self).retry {
                RunPhase::Retrying
            } else {
                RunPhase::Failed
            }),
    {
        if ok {
            self.phase = RunPhase::Succeeded;
        } else if self.attempts < self.retry {
            self.phase = RunPhase::Retrying;
        } else {
            self.phase = RunPhase::Failed;
        }
    }

    /// Whether the run is over, one way or the other.
    pub fn is_finished(&self) -> (r: bool)
        ensures
            r == (self.phase == RunPhase::Succeeded || self.phase == RunPhase::Failed),
    {
        match self.phase {
            RunPhase::Succeeded | RunPhase::Failed => true,
            _ => false,
        }
    }
}

} // verus!

//! Job orchestration: a deduplicating FIFO queue of job requests and the
//! single running-job slot. All file-processing work is serialized through
//! one orchestrator, which starts at most one job at a time and enqueues an
//! incoming request only when no structurally-equal request is already
//! waiting.

use vstd::prelude::*;
use crate::workflow::{workflow_eq, workflow_equal, Workflow};

verus! {

/// One request to run a specific workflow against one specific file.
#[derive(Debug, Clone)]
pub struct JobRequest {
    /// The library to which this job belongs.
    pub library: String,
    /// The absolute path to the file for this job.
    pub file_path: String,
    /// The workflow that is requested for this job.
    pub workflow: Workflow,
}

impl JobRequest {
    /// Create a new job request that can be passed to a [`JobOrchestrator`].
    pub fn new(library: String, file_path: String, workflow: Workflow) -> (r: Self)
        ensures
            r.library == library,
            r.file_path == file_path,
            r.workflow == workflow,
    {
        Self { library, file_path, workflow }
    }
}

/// Structural equality of job requests: same library, same file, same
/// workflow. This is the equality used for deduplication.
pub open spec fn job_request_eq(a: JobRequest, b: JobRequest) -> bool {
    &&& a.library@ == b.library@
    &&& a.file_path@ == b.file_path@
    &&& workflow_eq(a.workflow, b.workflow)
}

/// Decide structural equality of two job requests.
pub fn job_request_equal(a: &JobRequest, b: &JobRequest) -> (r: bool)
    ensures
        r == job_request_eq(*a, *b),
{
    a.library == b.library && a.file_path == b.file_path && workflow_equal(&a.workflow, &b.workflow)
}

/// Information about the execution of a single task: its exit code and its
/// full output to stdout and stderr.
#[derive(Debug, Clone)]
pub struct TaskReport {
    pub exit_code: Option<i32>,
    pub stdout: String,
    pub stderr: String,
}

impl TaskReport {
    pub fn new(exit_code: Option<i32>, stdout: String, stderr: String) -> (r: Self)
        ensures
            r.exit_code == exit_code,
            r.stdout == stdout,
            r.stderr == stderr,
    {
        TaskReport { exit_code, stdout, stderr }
    }
}

/// The terminal artifact of one workflow run: the workflow that ran and one
/// task report per executed task, in execution order.
#[derive(Debug, Clone)]
pub struct WorkflowReport {
    pub workflow: Workflow,
    pub task_reports: Vec<TaskReport>,
}

impl WorkflowReport {
    pub fn new(workflow: Workflow) -> (r: Self)
        ensures
            r.workflow == workflow,
            r.task_reports@.len() == 0,
    {
        Self { workflow, task_reports: Vec::new() }
    }

    pub fn new_with_reports(workflow: Workflow, task_reports: Vec<TaskReport>) -> (r: Self)
        ensures
            r.workflow == workflow,
            r.task_reports == task_reports,
    {
        Self { workflow, task_reports }
    }
}

/// Whether the queue already holds a request structurally equal to `job`.
pub open spec fn queue_contains(q: Seq<JobRequest>, job: JobRequest) -> bool {
    exists|i: int| 0 <= i < q.len() && job_request_eq(q[i], job)
}

/// The queue after submitting `job`: unchanged when an equal request is
/// already waiting, otherwise `job` is appended at the back.
pub open spec fn submitted(q: Seq<JobRequest>, job: JobRequest) -> Seq<JobRequest> {
    if queue_contains(q, job) {
        q
    } else {
        q.push(job)
    }
}

/// Deduplication law: submitting the same request twice leaves the queue
/// exactly as one submission does.
pub proof fn lemma_submit_idempotent(q: Seq<JobRequest>, job: JobRequest)
    ensures
        submitted(submitted(q, job), job) == submitted(q, job),
{
    if !queue_contains(q, job) {
        assert(job_request_eq(job, job));
        assert(q.push(job)[q.len() as int] == job);
        assert(queue_contains(q.push(job), job));
    }
}

/// The orchestrator's state: the FIFO queue of deduplicated requests and
/// the single running-job slot.
#[derive(Debug)]
pub struct JobOrchestrator {
    pub queue: Vec<JobRequest>,
    pub running: Option<JobRequest>,
}

impl JobOrchestrator {
    /// A fresh orchestrator: empty queue, nothing running.
    pub fn new() -> (r: Self)
        ensures
            r.queue@.len() == 0,
            r.running is None,
    {
        Self { queue: Vec::new(), running: None }
    }

    /// Whether a job is currently executing.
    pub fn is_busy(&self) -> (r: bool)
        ensures
            r == (self.running is Some),
    {
        self.running.is_some()
    }

    /// Submit a job request: appended at the back of the queue, unless a
    /// structurally-equal request is already waiting, in which case it is
    /// discarded. Returns whether the request was enqueued.
    pub fn submit(&mut self, job: JobRequest) -> (enqueued: bool)
        ensures
            final(self).queue@ == submitted(old(self).queue@, job),
            final(self).running == old(self).running,
            enqueued == !queue_contains(old(self).queue@, job),
    {
        let mut i: usize = 0;
        while i < self.queue.len()
            invariant
                i <= self.queue@.len(),
                self == old(self),
                forall|j: int| 0 <= j < i ==> !job_request_eq(self.queue@[j], job),
            decreases self.queue@.len() - i,
        {
            if job_request_equal(&self.queue[i], &job) {
                return false;
            }
            i = i + 1;
        }
        self.queue.push(job);
        true
    }

    /// Start the next queued job, if idle and one is waiting: the front of
    /// the queue moves into the running slot. While a job is running this
    /// never starts another, whatever the queue holds.
    pub fn start_next(&mut self) -> (started: bool)
        ensures
            old(self).running is Some ==> !started && *final(self) == *old(self),
            old(self).running is None && old(self).queue@.len() == 0 ==> !started
                && *final(self) == *old(self),
            old(self).running is None && old(self).queue@.len() > 0 ==> started
                && final(self).running == Some(old(self).queue@[0])
                && final(self).queue@ == old(self).queue@.drop_first(),
    {
        if self.running.is_some() {
            return false;
        }
        if self.queue.len() == 0 {
            return false;
        }
        let job = self.queue.remove(0);
        proof {
            assert(self.queue@ =~= old(self).queue@.drop_first());
        }
        self.running = Some(job);
        true
    }

    /// Take the finished job out of the running slot, returning to idle.
    pub fn finish_running(&mut self) -> (r: Option<JobRequest>)
        ensures
            r == old(self).running,
            final(self).running is None,
            final(self).queue == old(self).queue,
    {
        self.running.take()
    }
}

} // verus!

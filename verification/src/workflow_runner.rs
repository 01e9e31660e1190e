//! The workflow runner: executes one workflow against one source file as a
//! state machine over the staging protocol. The runner decides, step by
//! step, what must happen next — stage the file, probe each task, run the
//! surviving tasks in order, commit the result — while the unverified shell
//! performs the filesystem and subprocess work and reports each outcome
//! back. A run leaves the source file either fully transformed or
//! completely untouched; the guarantees over file contents are proved in
//! [`crate::fs_model`].

use vstd::prelude::*;
use crate::job_orchestration::{TaskReport, WorkflowReport};
use crate::staging::RunPaths;
use crate::workflow::{Task, Workflow};

verus! {

/// Why preparation of the scratchpad failed.
#[derive(Debug, Clone, Copy, PartialEq, Eq, Structural)]
pub enum PreparationError {
    UnableToCreateScratchpad,
    UnableToCopySourceFile,
}

/// Why the final commit failed.
#[derive(Debug, Clone, Copy, PartialEq, Eq, Structural)]
pub enum CompletionError {
    UnableToMoveFile,
}

/// The ways one workflow run can fail. Task failures are not among them: a
/// task's nonzero exit or missing output is recorded, never fatal.
#[derive(Debug, Clone, Copy, PartialEq, Eq, Structural)]
pub enum RunnerError {
    PreparationFailed(PreparationError),
    ProbeAborted,
    CompletionFailed(CompletionError),
}

/// What a task's probe decided: run the task, skip it, or abort the whole
/// workflow.
#[derive(Debug, Clone, Copy, PartialEq, Eq, Structural)]
pub enum ProbeResult {
    Run,
    Skip,
    Abort,
}

/// What the shell observed when it carried out one probe request.
#[derive(Debug, Clone)]
pub enum ProbeOutcome {
    /// The task has no probe; nothing was executed.
    NotNeeded,
    /// The probe script ran to an exit code, or `None` when it could not be
    /// spawned or waited on.
    ScriptExit(Option<i32>),
    /// Codec introspection of the staged file found this codec name, or
    /// `None` when introspection failed.
    CodecFound(Option<String>),
}

/// Which outcome shape belongs to which task: a custom task with a probe
/// reports a script exit, one without reports nothing, and a builtin task
/// reports the staged file's codec.
pub open spec fn probe_outcome_fits(task: Task, outcome: ProbeOutcome) -> bool {
    match task {
        Task::Custom(custom_task) => match custom_task.probe {
            Some(_) => outcome is ScriptExit,
            None => outcome is NotNeeded,
        },
        Task::Builtin(_) => outcome is CodecFound,
    }
}

/// The probe decision for an outcome: no probe means run; a probe script's
/// exit code 0 means run and any other exit means skip; a builtin task is
/// skipped when the file is already `hevc` and run otherwise; a probe that
/// could not be executed aborts the workflow.
pub open spec fn spec_probe_result(outcome: ProbeOutcome) -> ProbeResult {
    match outcome {
        ProbeOutcome::NotNeeded => ProbeResult::Run,
        ProbeOutcome::ScriptExit(code) => match code {
            Some(c) => if c == 0 {
                ProbeResult::Run
            } else {
                ProbeResult::Skip
            },
            None => ProbeResult::Abort,
        },
        ProbeOutcome::CodecFound(codec) => match codec {
            Some(name) => if name@ == "hevc"@ {
                ProbeResult::Skip
            } else {
                ProbeResult::Run
            },
            None => ProbeResult::Abort,
        },
    }
}

/// Decide the probe result for an observed outcome.
pub fn probe_result(outcome: &ProbeOutcome) -> (r: ProbeResult)
    ensures
        r == spec_probe_result(*outcome),
{
    match outcome {
        ProbeOutcome::NotNeeded => ProbeResult::Run,
        ProbeOutcome::ScriptExit(Some(code)) => if *code == 0 {
            ProbeResult::Run
        } else {
            ProbeResult::Skip
        },
        ProbeOutcome::ScriptExit(None) => ProbeResult::Abort,
        ProbeOutcome::CodecFound(Some(name)) => if crate::text::str_eq(name.as_str(), "hevc") {
            ProbeResult::Skip
        } else {
            ProbeResult::Run
        },
        ProbeOutcome::CodecFound(None) => ProbeResult::Abort,
    }
}

/// Whether any probe outcome resolves to an abort.
pub open spec fn any_abort(outcomes: Seq<ProbeOutcome>) -> bool {
    exists|i: int| 0 <= i < outcomes.len() && spec_probe_result(outcomes[i]) is Abort
}

/// The indices, in order, of the tasks among the first `n` whose probe
/// resolved to run.
pub open spec fn run_indices(outcomes: Seq<ProbeOutcome>, n: int) -> Seq<usize>
    decreases n,
{
    if n <= 0 {
        Seq::empty()
    } else {
        let prev = run_indices(outcomes, n - 1);
        if spec_probe_result(outcomes[n - 1]) is Run {
            prev.push((n - 1) as usize)
        } else {
            prev
        }
    }
}

pub proof fn lemma_run_indices(outcomes: Seq<ProbeOutcome>, n: int)
    requires
        0 <= n <= outcomes.len(),
        n <= usize::MAX,
    ensures
        run_indices(outcomes, n).len() <= n,
        forall|k: int|
            0 <= k < run_indices(outcomes, n).len() ==> 0 <= (
            #[trigger] run_indices(outcomes, n)[k]) < n,
        forall|k1: int, k2: int|
            0 <= k1 < k2 < run_indices(outcomes, n).len() ==> #[trigger] run_indices(outcomes, n)[k1]
                < #[trigger] run_indices(outcomes, n)[k2],
        forall|k: int|
            0 <= k < run_indices(outcomes, n).len() ==> spec_probe_result(
                outcomes[#[trigger] run_indices(outcomes, n)[k] as int],
            ) is Run,
    decreases n,
{
    if n > 0 {
        lemma_run_indices(outcomes, n - 1);
    }
}

/// The environment handed to a probe subprocess: the staged input file and
/// the identifier of the task being probed.
pub fn probe_environment(input_file: &str, task_id: &str) -> (r: Vec<(String, String)>)
    ensures
        r@.len() == 2,
        r@[0].0@ == "OMZET_INPUT"@ && r@[0].1@ == input_file@,
        r@[1].0@ == "OMZET_TASK"@ && r@[1].1@ == task_id@,
{
    let mut r: Vec<(String, String)> = Vec::new();
    r.push(("OMZET_INPUT".to_owned(), input_file.to_owned()));
    r.push(("OMZET_TASK".to_owned(), task_id.to_owned()));
    r
}

/// The environment handed to a task subprocess: the staged input file and
/// the path where the task is expected to write its output.
pub fn task_environment(input_file: &str, output_file: &str) -> (r: Vec<(String, String)>)
    ensures
        r@.len() == 2,
        r@[0].0@ == "OMZET_INPUT"@ && r@[0].1@ == input_file@,
        r@[1].0@ == "OMZET_OUTPUT"@ && r@[1].1@ == output_file@,
{
    let mut r: Vec<(String, String)> = Vec::new();
    r.push(("OMZET_INPUT".to_owned(), input_file.to_owned()));
    r.push(("OMZET_OUTPUT".to_owned(), output_file.to_owned()));
    r
}

/// What the shell must do to probe the current task.
#[derive(Debug, Clone)]
pub enum ProbeRequest {
    /// The task has no probe: it always runs.
    NoProbe,
    /// Run this probe script in the scratchpad with this environment.
    Script { script: String, env: Vec<(String, String)>, working_directory: String },
    /// Inspect the codec of the staged input file.
    InspectCodec { input_file: String },
}

/// What the shell must do to execute the current task.
#[derive(Debug, Clone)]
pub enum TaskCommand {
    /// Run this command script in the scratchpad with this environment.
    Script { script: String, env: Vec<(String, String)>, working_directory: String },
    /// Transcode the staged input file to the output file.
    Transcode { input_file: String, output_file: String },
}

/// The request that probes `task` against the staged file.
pub open spec fn probe_request_matches(task: Task, paths: RunPaths, req: ProbeRequest) -> bool {
    match task {
        Task::Custom(custom_task) => match custom_task.probe {
            Some(probe) => {
                &&& req matches ProbeRequest::Script { script, env, working_directory }
                &&& script@ == probe@
                &&& working_directory@ == paths.scratchpad_directory@
                &&& env@.len() == 2
                &&& env@[0].0@ == "OMZET_INPUT"@ && env@[0].1@ == paths.input_file@
                &&& env@[1].0@ == "OMZET_TASK"@ && env@[1].1@ == custom_task.id@
            },
            None => req is NoProbe,
        },
        Task::Builtin(_) => {
            &&& req matches ProbeRequest::InspectCodec { input_file }
            &&& input_file@ == paths.input_file@
        },
    }
}

/// The command that executes `task` on the staged file.
pub open spec fn task_command_matches(task: Task, paths: RunPaths, cmd: TaskCommand) -> bool {
    match task {
        Task::Custom(custom_task) => {
            &&& cmd matches TaskCommand::Script { script, env, working_directory }
            &&& script@ == custom_task.command@
            &&& working_directory@ == paths.scratchpad_directory@
            &&& env@.len() == 2
            &&& env@[0].0@ == "OMZET_INPUT"@ && env@[0].1@ == paths.input_file@
            &&& env@[1].0@ == "OMZET_OUTPUT"@ && env@[1].1@ == paths.output_file@
        },
        Task::Builtin(_) => {
            &&& cmd matches TaskCommand::Transcode { input_file, output_file }
            &&& input_file@ == paths.input_file@
            &&& output_file@ == paths.output_file@
        },
    }
}

/// What the shell observed when it executed one task: the exit code (`None`
/// when the process could not be spawned or waited on), the captured output
/// streams, and whether the task's output file existed and was renamed over
/// the staged input.
#[derive(Debug, Clone)]
pub struct TaskOutcome {
    pub exit_code: Option<i32>,
    pub stdout: String,
    pub stderr: String,
    pub advanced: bool,
}

/// Where one workflow run stands.
#[derive(Debug, Clone, Copy, PartialEq, Eq, Structural)]
pub enum RunPhase {
    /// The scratchpad is being created and the source file copied in.
    Preparing,
    /// Probes are being evaluated, one task at a time, in workflow order.
    Probing,
    /// The surviving tasks are being executed, in workflow order.
    Running,
    /// The staged result was committed over the source file.
    Succeeded,
    /// The run failed; the source file is untouched.
    Failed(RunnerError),
}

/// One workflow run against one source file, step by step. The shell asks
/// what to do next, performs it, and records the outcome; every decision in
/// between is verified.
#[derive(Debug)]
pub struct WorkflowRun {
    pub workflow: Workflow,
    pub paths: RunPaths,
    pub probe_outcomes: Vec<ProbeOutcome>,
    pub selected: Vec<usize>,
    pub reports: Vec<TaskReport>,
    pub warnings: Vec<usize>,
    pub phase: RunPhase,
}

impl WorkflowRun {
    /// The machine's invariant: probing fills one outcome per task in
    /// order; the selected tasks are exactly those whose probe resolved to
    /// run; reports never outnumber selected tasks; a run only ever reaches
    /// the running phase with no abort among the probes.
    pub open spec fn wf(&self) -> bool {
        &&& self.paths.wf()
        &&& self.paths.scratchpad_directory@ == self.workflow.scratchpad_directory@
        &&& self.probe_outcomes@.len() <= self.workflow.tasks@.len()
        &&& forall|i: int|
            0 <= i < self.probe_outcomes@.len() ==> probe_outcome_fits(
                self.workflow.tasks@[i],
                #[trigger] self.probe_outcomes@[i],
            )
        &&& self.phase is Preparing ==> self.probe_outcomes@.len() == 0
        &&& (self.phase is Preparing || self.phase is Probing) ==> self.selected@.len() == 0
            && self.reports@.len() == 0 && self.warnings@.len() == 0
        &&& self.phase is Running ==> {
            &&& self.probe_outcomes@.len() == self.workflow.tasks@.len()
            &&& !any_abort(self.probe_outcomes@)
            &&& self.selected@ == run_indices(
                self.probe_outcomes@,
                self.probe_outcomes@.len() as int,
            )
            &&& self.reports@.len() <= self.selected@.len()
        }
        &&& self.phase is Succeeded ==> self.reports@.len() == self.selected@.len()
    }

    /// Begin a run: the shell must next create the scratchpad directory and
    /// copy the source file to the staged input path.
    pub fn new(workflow: Workflow, paths: RunPaths) -> (s: Self)
        requires
            paths.wf(),
            paths.scratchpad_directory@ == workflow.scratchpad_directory@,
        ensures
            s.wf(),
            s.phase is Preparing,
            s.workflow == workflow,
            s.paths == paths,
            s.probe_outcomes@.len() == 0,
            s.reports@.len() == 0,
            s.warnings@.len() == 0,
    {
        Self {
            workflow,
            paths,
            probe_outcomes: Vec::new(),
            selected: Vec::new(),
            reports: Vec::new(),
            warnings: Vec::new(),
            phase: RunPhase::Preparing,
        }
    }

    /// Record whether staging succeeded. A preparation failure ends the run
    /// with the source file untouched.
    pub fn record_preparation(&mut self, outcome: Option<PreparationError>)
        requires
            old(self).wf(),
            old(self).phase is Preparing,
        ensures
            final(self).wf(),
            final(self).workflow == old(self).workflow,
            final(self).paths == old(self).paths,
            final(self).probe_outcomes == old(self).probe_outcomes,
            final(self).selected == old(self).selected,
            final(self).reports == old(self).reports,
            final(self).warnings == old(self).warnings,
            match outcome {
                None => final(self).phase is Probing,
                Some(e) => final(self).phase == RunPhase::Failed(RunnerError::PreparationFailed(e)),
            },
    {
        match outcome {
            None => {
                self.phase = RunPhase::Probing;
            },
            Some(e) => {
                self.phase = RunPhase::Failed(RunnerError::PreparationFailed(e));
            },
        }
    }

    /// What the shell must do to probe the next task, or `None` when every
    /// task has been probed.
    pub fn next_probe(&self) -> (r: Option<ProbeRequest>)
        requires
            self.wf(),
            self.phase is Probing,
        ensures
            match r {
                None => self.probe_outcomes@.len() == self.workflow.tasks@.len(),
                Some(req) => self.probe_outcomes@.len() < self.workflow.tasks@.len()
                    && probe_request_matches(
                    self.workflow.tasks@[self.probe_outcomes@.len() as int],
                    self.paths,
                    req,
                ),
            },
    {
        let i = self.probe_outcomes.len();
        if i == self.workflow.tasks.len() {
            return None;
        }
        match &self.workflow.tasks[i] {
            Task::Custom(custom_task) => match &custom_task.probe {
                Some(probe) => Some(
                    ProbeRequest::Script {
                        script: probe.clone(),
                        env: probe_environment(
                            self.paths.input_file.as_str(),
                            custom_task.id.as_str(),
                        ),
                        working_directory: self.paths.scratchpad_directory.clone(),
                    },
                ),
                None => Some(ProbeRequest::NoProbe),
            },
            Task::Builtin(_) => Some(
                ProbeRequest::InspectCodec { input_file: self.paths.input_file.clone() },
            ),
        }
    }

    /// Record the outcome of the probe request for the next task.
    pub fn record_probe_outcome(&mut self, outcome: ProbeOutcome)
        requires
            old(self).wf(),
            old(self).phase is Probing,
            old(self).probe_outcomes@.len() < old(self).workflow.tasks@.len(),
            probe_outcome_fits(
                old(self).workflow.tasks@[old(self).probe_outcomes@.len() as int],
                outcome,
            ),
        ensures
            final(self).wf(),
            final(self).phase is Probing,
            final(self).workflow == old(self).workflow,
            final(self).paths == old(self).paths,
            final(self).probe_outcomes@ == old(self).probe_outcomes@.push(outcome),
            final(self).selected == old(self).selected,
            final(self).reports == old(self).reports,
            final(self).warnings == old(self).warnings,
    {
        self.probe_outcomes.push(outcome);
    }

    /// Resolve all recorded probes. If any probe aborted, the run fails
    /// with `ProbeAborted` before any task is executed; otherwise the tasks
    /// whose probe resolved to run are selected, in workflow order, and
    /// execution may begin.
    pub fn finish_probing(&mut self) -> (aborted: bool)
        requires
            old(self).wf(),
            old(self).phase is Probing,
            old(self).probe_outcomes@.len() == old(self).workflow.tasks@.len(),
        ensures
            final(self).wf(),
            final(self).workflow == old(self).workflow,
            final(self).paths == old(self).paths,
            final(self).probe_outcomes == old(self).probe_outcomes,
            final(self).reports@.len() == 0,
            aborted == any_abort(old(self).probe_outcomes@),
            aborted ==> final(self).phase == RunPhase::Failed(RunnerError::ProbeAborted),
            !aborted ==> final(self).phase is Running && final(self).selected@ == run_indices(
                old(self).probe_outcomes@,
                old(self).probe_outcomes@.len() as int,
            ),
    {
        let n = self.probe_outcomes.len();
        let mut i: usize = 0;
        let mut abort = false;
        let mut selected: Vec<usize> = Vec::new();
        while i < n
            invariant
                i <= n,
                n == self.probe_outcomes@.len(),
                abort == exists|j: int|
                    0 <= j < i && spec_probe_result(self.probe_outcomes@[j]) is Abort,
                selected@ == run_indices(self.probe_outcomes@, i as int),
            decreases n - i,
        {
            match probe_result(&self.probe_outcomes[i]) {
                ProbeResult::Run => {
                    selected.push(i);
                },
                ProbeResult::Skip => {},
                ProbeResult::Abort => {
                    abort = true;
                },
            }
            i = i + 1;
        }
        if abort {
            self.phase = RunPhase::Failed(RunnerError::ProbeAborted);
            true
        } else {
            self.selected = selected;
            self.phase = RunPhase::Running;
            false
        }
    }

    /// What the shell must do to execute the next selected task, or `None`
    /// when every selected task has run and the run is ready to commit.
    pub fn next_task(&self) -> (r: Option<TaskCommand>)
        requires
            self.wf(),
            self.phase is Running,
        ensures
            match r {
                None => self.reports@.len() == self.selected@.len(),
                Some(cmd) => self.reports@.len() < self.selected@.len() && task_command_matches(
                    self.workflow.tasks@[self.selected@[self.reports@.len() as int] as int],
                    self.paths,
                    cmd,
                ),
            },
    {
        let k = self.reports.len();
        if k == self.selected.len() {
            return None;
        }
        let n_probes = self.probe_outcomes.len();
        proof {
            lemma_run_indices(self.probe_outcomes@, n_probes as int);
        }
        let task_index = self.selected[k];
        match &self.workflow.tasks[task_index] {
            Task::Custom(custom_task) => Some(
                TaskCommand::Script {
                    script: custom_task.command.clone(),
                    env: task_environment(
                        self.paths.input_file.as_str(),
                        self.paths.output_file.as_str(),
                    ),
                    working_directory: self.paths.scratchpad_directory.clone(),
                },
            ),
            Task::Builtin(_) => Some(
                TaskCommand::Transcode {
                    input_file: self.paths.input_file.clone(),
                    output_file: self.paths.output_file.clone(),
                },
            ),
        }
    }

    /// Record the outcome of the task that just ran. A task failure is
    /// never fatal: the report is recorded whatever the exit code, and a
    /// task that produced no output file only adds a warning — the next
    /// task then works on the same staged input.
    pub fn record_task_outcome(&mut self, outcome: TaskOutcome)
        requires
            old(self).wf(),
            old(self).phase is Running,
            old(self).reports@.len() < old(self).selected@.len(),
        ensures
            final(self).wf(),
            final(self).phase is Running,
            final(self).workflow == old(self).workflow,
            final(self).paths == old(self).paths,
            final(self).probe_outcomes == old(self).probe_outcomes,
            final(self).selected == old(self).selected,
            final(self).reports@ == old(self).reports@.push(
                (TaskReport {
                    exit_code: outcome.exit_code,
                    stdout: outcome.stdout,
                    stderr: outcome.stderr,
                }),
            ),
            outcome.advanced ==> final(self).warnings == old(self).warnings,
            !outcome.advanced ==> final(self).warnings@ == old(self).warnings@.push(
                old(self).selected@[old(self).reports@.len() as int],
            ),
    {
        let task_index = self.selected[self.reports.len()];
        let TaskOutcome { exit_code, stdout, stderr, advanced } = outcome;
        self.reports.push(TaskReport { exit_code, stdout, stderr });
        if !advanced {
            self.warnings.push(task_index);
        }
    }

    /// Whether every selected task has run, so the shell must now rename
    /// the staged input over the source file.
    pub fn ready_to_commit(&self) -> (r: bool)
        requires
            self.wf(),
        ensures
            r == (self.phase is Running && self.reports@.len() == self.selected@.len()),
    {
        match self.phase {
            RunPhase::Running => self.reports.len() == self.selected.len(),
            _ => false,
        }
    }

    /// Record whether the final rename over the source file succeeded. This
    /// is the single point of the protocol where the source file changes.
    pub fn record_completion(&mut self, outcome: Option<CompletionError>)
        requires
            old(self).wf(),
            old(self).phase is Running,
            old(self).reports@.len() == old(self).selected@.len(),
        ensures
            final(self).wf(),
            final(self).workflow == old(self).workflow,
            final(self).paths == old(self).paths,
            final(self).probe_outcomes == old(self).probe_outcomes,
            final(self).selected == old(self).selected,
            final(self).reports == old(self).reports,
            final(self).warnings == old(self).warnings,
            match outcome {
                None => final(self).phase is Succeeded,
                Some(e) => final(self).phase == RunPhase::Failed(RunnerError::CompletionFailed(e)),
            },
    {
        match outcome {
            None => {
                self.phase = RunPhase::Succeeded;
            },
            Some(e) => {
                self.phase = RunPhase::Failed(RunnerError::CompletionFailed(e));
            },
        }
    }

    /// Whether the run has ended, in success or failure.
    pub fn is_finished(&self) -> (r: bool)
        ensures
            r == (self.phase is Succeeded || self.phase is Failed),
    {
        match self.phase {
            RunPhase::Succeeded => true,
            RunPhase::Failed(_) => true,
            _ => false,
        }
    }

    /// The run's result: on success, a report with the workflow and one
    /// task report per executed task in order; on failure, the error.
    pub fn into_result(self) -> (r: Result<WorkflowReport, RunnerError>)
        requires
            self.wf(),
            self.phase is Succeeded || self.phase is Failed,
        ensures
            self.phase is Succeeded ==> (r matches Ok(report) && report.workflow == self.workflow
                && report.task_reports@ == self.reports@ && report.task_reports@.len()
                == self.selected@.len()),
            self.phase matches RunPhase::Failed(e) ==> r == Result::<
                WorkflowReport,
                RunnerError,
            >::Err(e),
    {
        match self.phase {
            RunPhase::Succeeded => Ok(WorkflowReport::new_with_reports(self.workflow, self.reports)),
            RunPhase::Failed(e) => Err(e),
            _ => vstd::pervasive::unreached(),
        }
    }
}

} // verus!

//! The data model of a workflow: libraries, workflows, and the two kinds of
//! task (user-defined shell tasks and builtin native tasks), together with
//! the structural-equality predicates used for job deduplication.

use vstd::prelude::*;

verus! {

/// A user-defined task: shell scripts for the optional probe and the command.
#[derive(Debug, Clone)]
pub struct CustomTask {
    /// Identifier used to reference the task from a workflow.
    pub id: String,
    /// A short description of what the task does.
    pub description: String,
    /// Optional shell script that decides whether the command should run.
    pub probe: Option<String>,
    /// The shell script that performs the task.
    pub command: String,
}

impl CustomTask {
    pub fn new(id: String, description: String, probe: Option<String>, command: String) -> (r:
        Self)
        ensures
            r.id == id,
            r.description == description,
            r.probe == probe,
            r.command == command,
    {
        Self { id, description, probe, command }
    }
}

/// A builtin task with fixed native logic, keyed by a closed set of kinds.
#[derive(Debug, Clone)]
pub enum BuiltinTask {
    TranscodeToH265,
}

/// Error for a builtin-task identifier that names no known builtin.
#[derive(Debug, Clone)]
pub struct UnknownBuiltinTask {
    pub id: String,
}

impl BuiltinTask {
    /// The human-readable name of the builtin.
    pub fn name(&self) -> (r: &str)
        ensures
            r@ == self.spec_name(),
    {
        match self {
            BuiltinTask::TranscodeToH265 => "transcode to h265 (builtin)",
        }
    }

    pub open spec fn spec_name(&self) -> Seq<char> {
        match self {
            BuiltinTask::TranscodeToH265 => "transcode to h265 (builtin)"@,
        }
    }

    /// Resolve a builtin-task identifier from configuration.
    pub fn try_from_id(value: &str) -> (r: Result<BuiltinTask, UnknownBuiltinTask>)
        ensures
            value@ == "builtin.transcode_to_h265"@ ==> r matches Ok(
                BuiltinTask::TranscodeToH265,
            ),
            value@ != "builtin.transcode_to_h265"@ ==> (r matches Err(e) && e.id@ == value@),
    {
        if crate::text::str_eq(value, "builtin.transcode_to_h265") {
            Ok(BuiltinTask::TranscodeToH265)
        } else {
            Err(UnknownBuiltinTask { id: value.to_owned() })
        }
    }

    /// Which builtin an identifier resolves to, if any.
    pub open spec fn spec_of_id(id: Seq<char>) -> Option<BuiltinTask> {
        if id == "builtin.transcode_to_h265"@ {
            Some(BuiltinTask::TranscodeToH265)
        } else {
            None
        }
    }
}

/// A unit of work within a workflow.
#[derive(Debug, Clone)]
pub enum Task {
    Custom(CustomTask),
    Builtin(BuiltinTask),
}

impl Task {
    /// A short description of the task: the identifier of a custom task, or
    /// the name of a builtin.
    pub fn description(&self) -> (r: &str)
        ensures
            r@ == self.spec_description(),
    {
        match self {
            Task::Custom(custom_task) => custom_task.id.as_str(),
            Task::Builtin(builtin_task) => builtin_task.name(),
        }
    }

    pub open spec fn spec_description(&self) -> Seq<char> {
        match self {
            Task::Custom(custom_task) => custom_task.id@,
            Task::Builtin(builtin_task) => builtin_task.spec_name(),
        }
    }
}

/// Structural equality of builtins.
pub open spec fn builtin_eq(a: BuiltinTask, b: BuiltinTask) -> bool {
    a matches BuiltinTask::TranscodeToH265 && b matches BuiltinTask::TranscodeToH265
}

/// Structural equality of tasks, comparing string contents.
pub open spec fn task_eq(a: Task, b: Task) -> bool {
    match (a, b) {
        (Task::Custom(x), Task::Custom(y)) => {
            &&& x.id@ == y.id@
            &&& x.description@ == y.description@
            &&& option_str_eq(x.probe, y.probe)
            &&& x.command@ == y.command@
        },
        (Task::Builtin(x), Task::Builtin(y)) => builtin_eq(x, y),
        _ => false,
    }
}

/// Equality of optional strings by content.
pub open spec fn option_str_eq(a: Option<String>, b: Option<String>) -> bool {
    match (a, b) {
        (Some(x), Some(y)) => x@ == y@,
        (None, None) => true,
        _ => false,
    }
}

/// Elementwise structural equality of task lists.
pub open spec fn tasks_eq(a: Seq<Task>, b: Seq<Task>) -> bool {
    a.len() == b.len() && forall|i: int| 0 <= i < a.len() ==> task_eq(a[i], b[i])
}

/// Elementwise equality of string lists by content.
pub open spec fn strings_eq(a: Seq<String>, b: Seq<String>) -> bool {
    a.len() == b.len() && forall|i: int| 0 <= i < a.len() ==> a[i]@ == b[i]@
}

/// A workflow: the ordered tasks to run for each file of a library, plus the
/// scratchpad directory where staged copies are transformed.
#[derive(Debug, Clone)]
pub struct Workflow {
    pub name: String,
    pub scratchpad_directory: String,
    pub included_extensions: Vec<String>,
    pub tasks: Vec<Task>,
}

/// Structural equality of workflows.
pub open spec fn workflow_eq(a: Workflow, b: Workflow) -> bool {
    &&& a.name@ == b.name@
    &&& a.scratchpad_directory@ == b.scratchpad_directory@
    &&& strings_eq(a.included_extensions@, b.included_extensions@)
    &&& tasks_eq(a.tasks@, b.tasks@)
}

/// Decide structural equality of two optional strings.
pub fn option_str_equal(a: &Option<String>, b: &Option<String>) -> (r: bool)
    ensures
        r == option_str_eq(*a, *b),
{
    match (a, b) {
        (Some(x), Some(y)) => *x == *y,
        (None, None) => true,
        _ => false,
    }
}

/// Decide structural equality of two tasks.
pub fn task_equal(a: &Task, b: &Task) -> (r: bool)
    ensures
        r == task_eq(*a, *b),
{
    match (a, b) {
        (Task::Custom(x), Task::Custom(y)) => x.id == y.id && x.description == y.description
            && option_str_equal(&x.probe, &y.probe) && x.command == y.command,
        (Task::Builtin(x), Task::Builtin(y)) => match (x, y) {
            (BuiltinTask::TranscodeToH265, BuiltinTask::TranscodeToH265) => true,
        },
        _ => false,
    }
}

/// Decide elementwise equality of two string lists.
pub fn strings_equal(a: &Vec<String>, b: &Vec<String>) -> (r: bool)
    ensures
        r == strings_eq(a@, b@),
{
    if a.len() != b.len() {
        return false;
    }
    let mut i: usize = 0;
    while i < a.len()
        invariant
            i <= a@.len(),
            a@.len() == b@.len(),
            forall|j: int| 0 <= j < i ==> a@[j]@ == b@[j]@,
        decreases a@.len() - i,
    {
        if !(a[i] == b[i]) {
            return false;
        }
        i = i + 1;
    }
    true
}

/// Decide elementwise structural equality of two task lists.
pub fn tasks_equal(a: &Vec<Task>, b: &Vec<Task>) -> (r: bool)
    ensures
        r == tasks_eq(a@, b@),
{
    if a.len() != b.len() {
        return false;
    }
    let mut i: usize = 0;
    while i < a.len()
        invariant
            i <= a@.len(),
            a@.len() == b@.len(),
            forall|j: int| 0 <= j < i ==> task_eq(a@[j], b@[j]),
        decreases a@.len() - i,
    {
        if !task_equal(&a[i], &b[i]) {
            return false;
        }
        i = i + 1;
    }
    true
}

/// Decide structural equality of two workflows.
pub fn workflow_equal(a: &Workflow, b: &Workflow) -> (r: bool)
    ensures
        r == workflow_eq(*a, *b),
{
    a.name == b.name && a.scratchpad_directory == b.scratchpad_directory && strings_equal(
        &a.included_extensions,
        &b.included_extensions,
    ) && tasks_equal(&a.tasks, &b.tasks)
}

/// A library: a directory monitored for files, and the workflow to run on
/// each matching file.
#[derive(Debug, Clone)]
pub struct Library {
    pub name: String,
    pub workflow: Workflow,
    pub directory: String,
}

/// The comma-separated join of a list of strings.
pub open spec fn comma_join(parts: Seq<Seq<char>>) -> Seq<char>
    decreases parts.len(),
{
    if parts.len() == 0 {
        Seq::empty()
    } else if parts.len() == 1 {
        parts[0]
    } else {
        comma_join(parts.drop_last()) + seq![','] + parts.last()
    }
}

/// Join a list of strings with commas.
pub fn comma_join_strings(parts: &Vec<String>) -> (r: String)
    ensures
        r@ == comma_join(parts@.map_values(|s: String| s@)),
{
    let ghost views = parts@.map_values(|s: String| s@);
    let mut r = String::new();
    let mut i: usize = 0;
    while i < parts.len()
        invariant
            i <= parts@.len(),
            views == parts@.map_values(|s: String| s@),
            r@ == comma_join(views.take(i as int)),
        decreases parts@.len() - i,
    {
        if i > 0 {
            r = crate::text::concat_strs(r.as_str(), ",");
        }
        r = crate::text::concat_strs(r.as_str(), parts[i].as_str());
        proof {
            reveal_strlit(",");
            assert(views.take(i + 1 as int).drop_last() =~= views.take(i as int));
            assert(views.take(i + 1 as int).last() == views[i as int]);
            if i == 0 {
                assert(r@ =~= comma_join(views.take(i + 1 as int)));
            } else {
                assert(r@ =~= comma_join(views.take(i as int)) + seq![','] + views[i as int]);
            }
        }
        i = i + 1;
    }
    proof {
        assert(views.take(parts@.len() as int) =~= views);
    }
    r
}

impl Library {
    pub fn new(name: String, workflow: Workflow, directory: String) -> (r: Self)
        ensures
            r.name == name,
            r.workflow == workflow,
            r.directory == directory,
    {
        Self { name, workflow, directory }
    }

    /// The glob pattern that matches, under the library's directory, every
    /// file with one of the workflow's included extensions.
    pub fn directory_glob(&self) -> (r: String)
        ensures
            r@ == self.directory@ + seq!['/'] + "**/*."@ + seq!['{'] + comma_join(
                self.workflow.included_extensions@.map_values(|s: String| s@),
            ) + seq!['}'],
    {
        let extensions = comma_join_strings(&self.workflow.included_extensions);
        let mut r = crate::text::concat_strs(self.directory.as_str(), "/");
        r = crate::text::concat_strs(r.as_str(), "**/*.");
        r = crate::text::concat_strs(r.as_str(), "{");
        r = crate::text::concat_strs(r.as_str(), extensions.as_str());
        r = crate::text::concat_strs(r.as_str(), "}");
        proof {
            reveal_strlit("/");
            reveal_strlit("{");
            reveal_strlit("}");
            assert(r@ =~= self.directory@ + seq!['/'] + "**/*."@ + seq!['{'] + comma_join(
                self.workflow.included_extensions@.map_values(|s: String| s@),
            ) + seq!['}']);
        }
        r
    }
}

} // verus!

//! Denormalizing a parsed configuration into libraries with fully resolved
//! workflows: each workflow reference is looked up by name, each task
//! identifier resolves to a builtin task (a `builtin.` prefix) or to a
//! declared custom task, and every dangling reference is reported as the
//! exact error naming it.

use vstd::prelude::*;
use crate::workflow::{BuiltinTask, CustomTask, Library, Task, UnknownBuiltinTask, Workflow};

verus! {

/// An identifier referencing a task from a workflow definition.
#[derive(Debug, Clone)]
pub struct TaskId(pub String);

/// A custom task as declared in the configuration.
#[derive(Debug, Clone)]
pub struct TaskConfig {
    pub id: TaskId,
    pub description: String,
    pub probe: Option<String>,
    pub command: String,
}

impl TaskConfig {
    /// The custom task this declaration describes.
    pub fn to_custom_task(&self) -> (r: CustomTask)
        ensures
            r.id == self.id.0,
            r.description == self.description,
            r.probe == self.probe,
            r.command == self.command,
    {
        CustomTask {
            id: self.id.0.clone(),
            description: self.description.clone(),
            probe: match &self.probe {
                Some(p) => Some(p.clone()),
                None => None,
            },
            command: self.command.clone(),
        }
    }
}

/// A workflow as declared in the configuration, its tasks still by
/// reference.
#[derive(Debug, Clone)]
pub struct WorkflowConfig {
    pub name: String,
    pub scratchpad_directory: String,
    pub included_extensions: Vec<String>,
    pub tasks: Vec<TaskId>,
}

/// A library as declared in the configuration, its workflow still by name.
#[derive(Debug, Clone)]
pub struct LibraryConfig {
    pub directory: String,
    pub workflow: String,
}

/// The whole parsed configuration: libraries by name, workflow definitions,
/// and custom-task declarations.
#[derive(Debug, Clone)]
pub struct TomlConfig {
    pub libraries: Vec<(String, LibraryConfig)>,
    pub workflows: Vec<WorkflowConfig>,
    pub tasks: Vec<TaskConfig>,
}

/// The errors of configuration denormalization: each names the reference
/// that did not resolve.
#[derive(Debug, Clone)]
pub enum ConfigError {
    /// A library references a workflow name that is not defined.
    UnknownWorkflow(String),
    /// A workflow references a `builtin.` identifier that names no builtin.
    UnknownBuiltinTask(UnknownBuiltinTask),
    /// A workflow references a custom task that is not declared.
    UnknownCustomTask(String),
}

/// Whether an identifier is routed to builtin-task resolution.
pub open spec fn is_builtin_id(id: Seq<char>) -> bool {
    id.len() >= "builtin."@.len() && id.subrange(0, "builtin."@.len() as int) == "builtin."@
}

/// Whether a sequence of strings holds `s`, by content.
pub open spec fn contains_string(v: Seq<String>, s: Seq<char>) -> bool {
    exists|i: int| 0 <= i < v.len() && v[i]@ == s
}

/// Whether a sequence of strings is duplicate-free, by content.
pub open spec fn distinct_strings(v: Seq<String>) -> bool {
    forall|i: int, j: int| 0 <= i < j < v.len() ==> v[i]@ != v[j]@
}

/// Whether `t` is the task that a custom-task declaration describes.
pub open spec fn task_config_matches(cfg: TaskConfig, t: Task) -> bool {
    &&& t matches Task::Custom(ct)
    &&& ct.id == cfg.id.0
    &&& ct.description == cfg.description
    &&& ct.probe == cfg.probe
    &&& ct.command == cfg.command
}

/// Whether the identifier `id` resolves at all: to a known builtin when it
/// carries the `builtin.` prefix, otherwise to some declared custom task.
pub open spec fn task_resolvable(cfgs: Seq<TaskConfig>, id: Seq<char>) -> bool {
    if is_builtin_id(id) {
        BuiltinTask::spec_of_id(id) is Some
    } else {
        exists|j: int| 0 <= j < cfgs.len() && cfgs[j].id.0@ == id
    }
}

/// Whether `t` is what the identifier `id` resolves to: the named builtin,
/// or the first declared custom task with that identifier.
pub open spec fn task_resolution(cfgs: Seq<TaskConfig>, id: Seq<char>, t: Task) -> bool {
    if is_builtin_id(id) {
        match BuiltinTask::spec_of_id(id) {
            Some(b) => t == Task::Builtin(b),
            None => false,
        }
    } else {
        exists|j: int|
            {
                &&& 0 <= j < cfgs.len()
                &&& cfgs[j].id.0@ == id
                &&& task_config_matches(cfgs[j], t)
                &&& forall|k: int| 0 <= k < j ==> cfgs[k].id.0@ != id
            }
    }
}

/// Whether every identifier of `ids` resolves.
pub open spec fn all_resolvable(cfgs: Seq<TaskConfig>, ids: Seq<TaskId>) -> bool {
    forall|i: int| 0 <= i < ids.len() ==> task_resolvable(cfgs, #[trigger] ids[i].0@)
}

/// Whether `ts` is the task list that `ids` resolves to, in order.
pub open spec fn tasks_built(cfgs: Seq<TaskConfig>, ids: Seq<TaskId>, ts: Seq<Task>) -> bool {
    ts.len() == ids.len() && forall|i: int|
        0 <= i < ids.len() ==> task_resolution(cfgs, ids[i].0@, #[trigger] ts[i])
}

/// The error reported for the first identifier of `ids` that does not
/// resolve: the unknown builtin, or the unknown custom task, named.
pub open spec fn build_tasks_error(cfgs: Seq<TaskConfig>, ids: Seq<TaskId>, e: ConfigError) -> bool {
    exists|k: int|
        {
            &&& 0 <= k < ids.len()
            &&& !task_resolvable(cfgs, ids[k].0@)
            &&& forall|j: int| 0 <= j < k ==> task_resolvable(cfgs, #[trigger] ids[j].0@)
            &&& if is_builtin_id(ids[k].0@) {
                e matches ConfigError::UnknownBuiltinTask(u) && u.id@ == ids[k].0@
            } else {
                e matches ConfigError::UnknownCustomTask(s) && s@ == ids[k].0@
            }
        }
}

/// The index of the first workflow definition with this name, or -1.
pub open spec fn find_workflow_index(ws: Seq<WorkflowConfig>, name: Seq<char>) -> int
    decreases ws.len(),
{
    if ws.len() == 0 {
        -1
    } else if ws[0].name@ == name {
        0
    } else {
        let rest = find_workflow_index(ws.drop_first(), name);
        if rest == -1 {
            -1
        } else {
            rest + 1
        }
    }
}

pub proof fn lemma_find_workflow_index(ws: Seq<WorkflowConfig>, name: Seq<char>)
    ensures
        -1 <= find_workflow_index(ws, name) < ws.len(),
        find_workflow_index(ws, name) >= 0 ==> ws[find_workflow_index(ws, name)].name@ == name
            && forall|j: int| 0 <= j < find_workflow_index(ws, name) ==> ws[j].name@ != name,
        find_workflow_index(ws, name) == -1 ==> forall|j: int|
            0 <= j < ws.len() ==> ws[j].name@ != name,
    decreases ws.len(),
{
    if ws.len() > 0 && ws[0].name@ != name {
        lemma_find_workflow_index(ws.drop_first(), name);
        let rest = find_workflow_index(ws.drop_first(), name);
        if rest >= 0 {
            assert forall|j: int| 0 <= j < rest + 1 implies ws[j].name@ != name by {
                if j > 0 {
                    assert(ws.drop_first()[j - 1] == ws[j]);
                }
            }
        } else {
            assert forall|j: int| 0 <= j < ws.len() implies ws[j].name@ != name by {
                if j > 0 {
                    assert(ws.drop_first()[j - 1] == ws[j]);
                }
            }
        }
    }
}

/// Whether a workflow of this name is defined and all its tasks resolve.
pub open spec fn workflow_buildable(config: TomlConfig, name: Seq<char>) -> bool {
    let fi = find_workflow_index(config.workflows@, name);
    &&& fi >= 0
    &&& all_resolvable(config.tasks@, config.workflows@[fi].tasks@)
}

/// Whether `w` is the workflow built from this configuration for this name:
/// the first definition with the name, its extensions deduplicated, its
/// task references resolved in order.
pub open spec fn workflow_built(config: TomlConfig, name: Seq<char>, w: Workflow) -> bool {
    let fi = find_workflow_index(config.workflows@, name);
    &&& fi >= 0
    &&& w.name == config.workflows@[fi].name
    &&& w.scratchpad_directory == config.workflows@[fi].scratchpad_directory
    &&& distinct_strings(w.included_extensions@)
    &&& forall|i: int|
        0 <= i < w.included_extensions@.len() ==> contains_string(
            config.workflows@[fi].included_extensions@,
            #[trigger] w.included_extensions@[i]@,
        )
    &&& forall|i: int|
        0 <= i < config.workflows@[fi].included_extensions@.len() ==> contains_string(
            w.included_extensions@,
            #[trigger] config.workflows@[fi].included_extensions@[i]@,
        )
    &&& tasks_built(config.tasks@, config.workflows@[fi].tasks@, w.tasks@)
}

/// The error reported when the workflow of this name cannot be built.
pub open spec fn workflow_build_error(config: TomlConfig, name: Seq<char>, e: ConfigError) -> bool {
    let fi = find_workflow_index(config.workflows@, name);
    if fi == -1 {
        e matches ConfigError::UnknownWorkflow(s) && s@ == name
    } else {
        build_tasks_error(config.tasks@, config.workflows@[fi].tasks@, e)
    }
}

/// Copy `v` without its duplicates, keeping the first occurrence of each
/// string and the order of first occurrences.
pub fn dedup_strings(v: &Vec<String>) -> (r: Vec<String>)
    ensures
        distinct_strings(r@),
        forall|i: int| 0 <= i < r@.len() ==> contains_string(v@, #[trigger] r@[i]@),
        forall|i: int| 0 <= i < v@.len() ==> contains_string(r@, #[trigger] v@[i]@),
{
    let mut r: Vec<String> = Vec::new();
    let mut i: usize = 0;
    while i < v.len()
        invariant
            i <= v@.len(),
            distinct_strings(r@),
            forall|k: int| 0 <= k < r@.len() ==> contains_string(v@, #[trigger] r@[k]@),
            forall|k: int| 0 <= k < i ==> contains_string(r@, #[trigger] v@[k]@),
        decreases v@.len() - i,
    {
        let mut j: usize = 0;
        let mut present = false;
        while j < r.len()
            invariant
                j <= r@.len(),
                i < v@.len(),
                present == exists|k: int| 0 <= k < j && r@[k]@ == v@[i as int]@,
            decreases r@.len() - j,
        {
            if r[j] == v[i] {
                present = true;
            }
            j = j + 1;
        }
        if !present {
            let ghost old_r = r@;
            r.push(v[i].clone());
            proof {
                assert(r@[old_r.len() as int]@ == v@[i as int]@);
                assert forall|k: int| 0 <= k < i + 1 implies contains_string(
                    r@,
                    #[trigger] v@[k]@,
                ) by {
                    if k < i {
                        let w = choose|w: int| 0 <= w < old_r.len() && old_r[w]@ == v@[k]@;
                        assert(r@[w]@ == v@[k]@);
                    } else {
                        assert(r@[old_r.len() as int]@ == v@[k]@);
                    }
                }
                assert forall|k1: int, k2: int| 0 <= k1 < k2 < r@.len() implies r@[k1]@ != r@[k2]@ by {
                    if k2 == old_r.len() {
                        assert(!(exists|k: int| 0 <= k < old_r.len() && old_r[k]@ == v@[i as int]@));
                        assert(old_r[k1]@ != v@[i as int]@);
                    }
                }
            }
        } else {
            proof {
                let w = choose|w: int| 0 <= w < r@.len() && r@[w]@ == v@[i as int]@;
                assert(contains_string(r@, v@[i as int]@));
            }
        }
        i = i + 1;
    }
    r
}

/// The first custom-task declaration with this identifier, if any.
fn find_task_config(tasks: &Vec<TaskConfig>, id: &str) -> (r: Option<usize>)
    ensures
        match r {
            Some(j) => j < tasks@.len() && tasks@[j as int].id.0@ == id@ && forall|k: int|
                0 <= k < j ==> tasks@[k].id.0@ != id@,
            None => forall|k: int| 0 <= k < tasks@.len() ==> tasks@[k].id.0@ != id@,
        },
{
    let mut j: usize = 0;
    while j < tasks.len()
        invariant
            j <= tasks@.len(),
            forall|k: int| 0 <= k < j ==> tasks@[k].id.0@ != id@,
        decreases tasks@.len() - j,
    {
        if crate::text::str_eq(tasks[j].id.0.as_str(), id) {
            return Some(j);
        }
        j = j + 1;
    }
    None
}

impl TomlConfig {
    /// Resolve a list of task identifiers into tasks, in order: a
    /// `builtin.` identifier becomes the named builtin task, any other
    /// identifier becomes the first custom task declared with it. Fails on
    /// the first identifier that resolves to nothing, naming it.
    pub fn build_tasks(&self, ids: &Vec<TaskId>) -> (r: Result<Vec<Task>, ConfigError>)
        ensures
            (r is Ok) == all_resolvable(self.tasks@, ids@),
            r matches Ok(ts) ==> tasks_built(self.tasks@, ids@, ts@),
            r matches Err(e) ==> build_tasks_error(self.tasks@, ids@, e),
    {
        let mut tasks: Vec<Task> = Vec::new();
        let mut i: usize = 0;
        while i < ids.len()
            invariant
                i <= ids@.len(),
                tasks@.len() == i,
                forall|j: int|
                    0 <= j < i ==> task_resolution(self.tasks@, ids@[j].0@, #[trigger] tasks@[j]),
                forall|j: int| 0 <= j < i ==> task_resolvable(self.tasks@, #[trigger] ids@[j].0@),
            decreases ids@.len() - i,
        {
            let id = &ids[i];
            if crate::text::has_prefix(id.0.as_str(), "builtin.") {
                match BuiltinTask::try_from_id(id.0.as_str()) {
                    Ok(b) => {
                        tasks.push(Task::Builtin(b));
                    },
                    Err(unknown) => {
                        let e = ConfigError::UnknownBuiltinTask(unknown);
                        proof {
                            let ii = i as int;
                            assert(0 <= ii < ids@.len() && !task_resolvable(
                                self.tasks@,
                                ids@[ii].0@,
                            ) && (forall|jx: int|
                                0 <= jx < ii ==> task_resolvable(
                                    self.tasks@,
                                    #[trigger] ids@[jx].0@,
                                )) && (e matches ConfigError::UnknownBuiltinTask(u) && u.id@
                                == ids@[ii].0@));
                            assert(build_tasks_error(self.tasks@, ids@, e));
                            assert(!all_resolvable(self.tasks@, ids@));
                        }
                        return Err(e);
                    },
                }
            } else {
                match find_task_config(&self.tasks, id.0.as_str()) {
                    Some(j) => {
                        let custom = self.tasks[j].to_custom_task();
                        tasks.push(Task::Custom(custom));
                        proof {
                            let jj = j as int;
                            let ii = i as int;
                            assert(0 <= jj < self.tasks@.len() && self.tasks@[jj].id.0@
                                == ids@[ii].0@ && task_config_matches(self.tasks@[jj], tasks@[ii])
                                && (forall|k: int|
                                0 <= k < jj ==> self.tasks@[k].id.0@ != ids@[ii].0@));
                            assert(task_resolution(self.tasks@, ids@[ii].0@, tasks@[ii]));
                        }
                    },
                    None => {
                        let e = ConfigError::UnknownCustomTask(id.0.clone());
                        proof {
                            let ii = i as int;
                            assert(0 <= ii < ids@.len() && !task_resolvable(
                                self.tasks@,
                                ids@[ii].0@,
                            ) && (forall|jx: int|
                                0 <= jx < ii ==> task_resolvable(
                                    self.tasks@,
                                    #[trigger] ids@[jx].0@,
                                )) && (e matches ConfigError::UnknownCustomTask(s) && s@
                                == ids@[ii].0@));
                            assert(build_tasks_error(self.tasks@, ids@, e));
                            assert(!all_resolvable(self.tasks@, ids@));
                        }
                        return Err(e);
                    },
                }
            }
            i = i + 1;
        }
        Ok(tasks)
    }

    /// Build the workflow of this name: the first definition with the name,
    /// its extension list deduplicated, its task references resolved.
    pub fn build_workflow(&self, name: &str) -> (r: Result<Workflow, ConfigError>)
        ensures
            (r is Ok) == workflow_buildable(*self, name@),
            r matches Ok(w) ==> workflow_built(*self, name@, w),
            r matches Err(e) ==> workflow_build_error(*self, name@, e),
    {
        proof {
            lemma_find_workflow_index(self.workflows@, name@);
        }
        let mut i: usize = 0;
        while i < self.workflows.len()
            invariant
                i <= self.workflows@.len(),
                forall|j: int| 0 <= j < i ==> self.workflows@[j].name@ != name@,
            decreases self.workflows@.len() - i,
        {
            if crate::text::str_eq(self.workflows[i].name.as_str(), name) {
                proof {
                    lemma_find_workflow_index(self.workflows@, name@);
                    let fi = find_workflow_index(self.workflows@, name@);
                    if fi < i {
                        assert(self.workflows@[fi].name@ == name@);
                        assert(false);
                    }
                    if fi > i as int || fi == -1 {
                        assert(self.workflows@[i as int].name@ != name@);
                        assert(false);
                    }
                }
                let workflow_config = &self.workflows[i];
                let tasks = match self.build_tasks(&workflow_config.tasks) {
                    Ok(tasks) => tasks,
                    Err(e) => {
                        return Err(e);
                    },
                };
                return Ok(
                    Workflow {
                        name: workflow_config.name.clone(),
                        scratchpad_directory: workflow_config.scratchpad_directory.clone(),
                        included_extensions: dedup_strings(&workflow_config.included_extensions),
                        tasks,
                    },
                );
            }
            i = i + 1;
        }
        proof {
            lemma_find_workflow_index(self.workflows@, name@);
            if find_workflow_index(self.workflows@, name@) >= 0 {
                assert(false);
            }
        }
        Err(ConfigError::UnknownWorkflow(name.to_owned()))
    }
}

/// Whether every library of the configuration can be denormalized.
pub open spec fn config_buildable(config: TomlConfig) -> bool {
    forall|i: int|
        0 <= i < config.libraries@.len() ==> workflow_buildable(
            config,
            #[trigger] config.libraries@[i].1.workflow@,
        )
}

/// Denormalize the configuration into libraries, each carrying its fully
/// resolved workflow. Fails on the first library whose workflow cannot be
/// built, with that workflow's error.
pub fn denormalize_config(config: &TomlConfig) -> (r: Result<Vec<Library>, ConfigError>)
    ensures
        (r is Ok) == config_buildable(*config),
        r matches Ok(libs) ==> libs@.len() == config.libraries@.len() && forall|i: int|
            0 <= i < libs@.len() ==> {
                &&& (#[trigger] libs@[i]).name == config.libraries@[i].0
                &&& libs@[i].directory == config.libraries@[i].1.directory
                &&& workflow_built(*config, config.libraries@[i].1.workflow@, libs@[i].workflow)
            },
        r matches Err(e) ==> exists|k: int|
            {
                &&& 0 <= k < config.libraries@.len()
                &&& !workflow_buildable(*config, config.libraries@[k].1.workflow@)
                &&& forall|j: int|
                    0 <= j < k ==> workflow_buildable(
                        *config,
                        #[trigger] config.libraries@[j].1.workflow@,
                    )
                &&& workflow_build_error(*config, config.libraries@[k].1.workflow@, e)
            },
{
    let mut libraries: Vec<Library> = Vec::new();
    let mut i: usize = 0;
    while i < config.libraries.len()
        invariant
            i <= config.libraries@.len(),
            libraries@.len() == i,
            forall|j: int|
                0 <= j < i ==> workflow_buildable(
                    *config,
                    #[trigger] config.libraries@[j].1.workflow@,
                ),
            forall|j: int|
                0 <= j < i ==> {
                    &&& (#[trigger] libraries@[j]).name == config.libraries@[j].0
                    &&& libraries@[j].directory == config.libraries@[j].1.directory
                    &&& workflow_built(
                        *config,
                        config.libraries@[j].1.workflow@,
                        libraries@[j].workflow,
                    )
                },
        decreases config.libraries@.len() - i,
    {
        let (name, library_config) = &config.libraries[i];
        let workflow = match config.build_workflow(library_config.workflow.as_str()) {
            Ok(workflow) => workflow,
            Err(e) => {
                return Err(e);
            },
        };
        libraries.push(Library::new(name.clone(), workflow, library_config.directory.clone()));
        i = i + 1;
    }
    Ok(libraries)
}

} // verus!

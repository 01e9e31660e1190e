//! A model of the staging protocol's effect on the filesystem: files as a
//! map from path to contents, and the copy, task-output and rename steps of
//! one workflow run as functions on that map. The lemmas here are the
//! crate's isolation and atomic-commit guarantees: the source file's bytes
//! never change before the final commit, and a successful commit installs
//! exactly the content the task chain produced.

use vstd::prelude::*;
use crate::staging::RunPaths;

verus! {

/// Staging a file: copy the source's contents to the staged input path.
pub open spec fn stage_copy(
    fs: Map<Seq<char>, Seq<u8>>,
    source: Seq<char>,
    input: Seq<char>,
) -> Map<Seq<char>, Seq<u8>> {
    fs.insert(input, fs[source])
}

/// One executed task, as far as the protocol is concerned: if the task
/// wrote its expected output file (`wrote` is the content), the output is
/// renamed over the staged input; a task that wrote no output leaves the
/// staged input untouched.
pub open spec fn task_step(
    fs: Map<Seq<char>, Seq<u8>>,
    input: Seq<char>,
    output: Seq<char>,
    wrote: Option<Seq<u8>>,
) -> Map<Seq<char>, Seq<u8>> {
    match wrote {
        Some(data) => fs.insert(output, data).insert(input, data).remove(output),
        None => fs,
    }
}

/// The filesystem after a chain of executed tasks, in order.
pub open spec fn tasks_steps(
    fs: Map<Seq<char>, Seq<u8>>,
    input: Seq<char>,
    output: Seq<char>,
    writes: Seq<Option<Seq<u8>>>,
) -> Map<Seq<char>, Seq<u8>>
    decreases writes.len(),
{
    if writes.len() == 0 {
        fs
    } else {
        tasks_steps(task_step(fs, input, output, writes[0]), input, output, writes.drop_first())
    }
}

/// Committing a run: rename the staged input over the source file.
pub open spec fn commit(
    fs: Map<Seq<char>, Seq<u8>>,
    input: Seq<char>,
    source: Seq<char>,
) -> Map<Seq<char>, Seq<u8>> {
    fs.insert(source, fs[input]).remove(input)
}

/// What the staged input holds after a chain of tasks: the content of the
/// last task that wrote an output, or the original staged content if none
/// did.
pub open spec fn chained_content(original: Seq<u8>, writes: Seq<Option<Seq<u8>>>) -> Seq<u8>
    decreases writes.len(),
{
    if writes.len() == 0 {
        original
    } else {
        chained_content(
            match writes[0] {
                Some(data) => data,
                None => original,
            },
            writes.drop_first(),
        )
    }
}

/// Task steps touch only the staged input and output paths: every other
/// file keeps its presence and its contents.
pub proof fn lemma_tasks_preserve_other_paths(
    fs: Map<Seq<char>, Seq<u8>>,
    input: Seq<char>,
    output: Seq<char>,
    writes: Seq<Option<Seq<u8>>>,
    path: Seq<char>,
)
    requires
        path != input,
        path != output,
    ensures
        tasks_steps(fs, input, output, writes).contains_key(path) == fs.contains_key(path),
        fs.contains_key(path) ==> tasks_steps(fs, input, output, writes)[path] == fs[path],
    decreases writes.len(),
{
    if writes.len() > 0 {
        lemma_tasks_preserve_other_paths(
            task_step(fs, input, output, writes[0]),
            input,
            output,
            writes.drop_first(),
            path,
        );
    }
}

/// Staging isolation: from the moment the source file is copied into the
/// scratchpad until the final commit, the source file's bytes are
/// unchanged, however many tasks ran and whatever they wrote.
pub proof fn lemma_staging_isolation(
    fs: Map<Seq<char>, Seq<u8>>,
    source: Seq<char>,
    input: Seq<char>,
    output: Seq<char>,
    writes: Seq<Option<Seq<u8>>>,
)
    requires
        source != input,
        source != output,
        fs.contains_key(source),
    ensures
        tasks_steps(stage_copy(fs, source, input), input, output, writes).contains_key(source),
        tasks_steps(stage_copy(fs, source, input), input, output, writes)[source] == fs[source],
{
    lemma_tasks_preserve_other_paths(stage_copy(fs, source, input), input, output, writes, source);
}

/// After a chain of tasks, the staged input holds the chained content: the
/// last written output, or its own prior content if no task wrote one.
pub proof fn lemma_chained_content(
    fs: Map<Seq<char>, Seq<u8>>,
    input: Seq<char>,
    output: Seq<char>,
    writes: Seq<Option<Seq<u8>>>,
)
    requires
        input != output,
        fs.contains_key(input),
    ensures
        tasks_steps(fs, input, output, writes).contains_key(input),
        tasks_steps(fs, input, output, writes)[input] == chained_content(fs[input], writes),
    decreases writes.len(),
{
    if writes.len() > 0 {
        lemma_chained_content(
            task_step(fs, input, output, writes[0]),
            input,
            output,
            writes.drop_first(),
        );
    }
}

/// Output chaining: a task that wrote its output file hands exactly those
/// bytes to the next task as its staged input.
pub proof fn lemma_output_chained(
    fs: Map<Seq<char>, Seq<u8>>,
    input: Seq<char>,
    output: Seq<char>,
    data: Seq<u8>,
)
    requires
        input != output,
    ensures
        task_step(fs, input, output, Some(data)).contains_key(input),
        task_step(fs, input, output, Some(data))[input] == data,
{
}

/// Atomic commit: when a run of the staging protocol commits, the source
/// file holds exactly the task chain's result - the last written output, or
/// the source's own original bytes if no task wrote one; and if the run
/// stops anywhere before the commit, the source file holds its original
/// bytes.
pub proof fn lemma_atomic_commit(
    fs: Map<Seq<char>, Seq<u8>>,
    paths: RunPaths,
    writes: Seq<Option<Seq<u8>>>,
)
    requires
        paths.wf(),
        fs.contains_key(paths.source_file@),
    ensures
        ({
            let staged = tasks_steps(
                stage_copy(fs, paths.source_file@, paths.input_file@),
                paths.input_file@,
                paths.output_file@,
                writes,
            );
            let committed = commit(staged, paths.input_file@, paths.source_file@);
            &&& staged.contains_key(paths.source_file@)
            &&& staged[paths.source_file@] == fs[paths.source_file@]
            &&& committed.contains_key(paths.source_file@)
            &&& committed[paths.source_file@] == chained_content(
                fs[paths.source_file@],
                writes,
            )
        }),
{
    crate::staging::lemma_staged_paths_distinct(paths);
    let source = paths.source_file@;
    let input = paths.input_file@;
    let output = paths.output_file@;
    lemma_staging_isolation(fs, source, input, output, writes);
    lemma_chained_content(stage_copy(fs, source, input), input, output, writes);
}

/// Idempotent empty workflow: a run that executes no task still stages and
/// commits, and round-trips the source file's bytes unchanged.
pub proof fn lemma_empty_run_roundtrip(fs: Map<Seq<char>, Seq<u8>>, paths: RunPaths)
    requires
        paths.wf(),
        fs.contains_key(paths.source_file@),
    ensures
        ({
            let staged = stage_copy(fs, paths.source_file@, paths.input_file@);
            let committed = commit(staged, paths.input_file@, paths.source_file@);
            &&& committed.contains_key(paths.source_file@)
            &&& committed[paths.source_file@] == fs[paths.source_file@]
        }),
{
    lemma_atomic_commit(fs, paths, Seq::empty());
    assert(tasks_steps(
        stage_copy(fs, paths.source_file@, paths.input_file@),
        paths.input_file@,
        paths.output_file@,
        Seq::empty(),
    ) == stage_copy(fs, paths.source_file@, paths.input_file@));
}

} // verus!

use omzet::staging::derive_run_paths;
use omzet::workflow::{CustomTask, Task, Workflow};
use omzet::workflow_runner::{
    probe_result, ProbeOutcome, ProbeRequest, ProbeResult, RunnerError, TaskCommand, TaskOutcome,
    WorkflowRun,
};

fn script_task(id: &str, probe: Option<&str>, command: &str) -> Task {
    Task::Custom(CustomTask::new(
        id.to_owned(),
        "a test task".to_owned(),
        probe.map(|p| p.to_owned()),
        command.to_owned(),
    ))
}

fn workflow_of(tasks: Vec<Task>) -> Workflow {
    Workflow {
        name: "test-workflow".to_owned(),
        scratchpad_directory: "/tmp/scratch".to_owned(),
        included_extensions: vec!["mkv".to_owned()],
        tasks,
    }
}

fn started_run(tasks: Vec<Task>) -> WorkflowRun {
    let workflow = workflow_of(tasks);
    let paths = derive_run_paths("/tmp/scratch", "/media/film.mkv");
    let mut run = WorkflowRun::new(workflow, paths);
    run.record_preparation(None);
    run
}

fn ok_outcome(advanced: bool) -> TaskOutcome {
    TaskOutcome {
        exit_code: Some(0),
        stdout: "".to_owned(),
        stderr: "".to_owned(),
        advanced,
    }
}

#[test]
fn probe_mapping_follows_the_exit_code_convention() {
    assert_eq!(probe_result(&ProbeOutcome::NotNeeded), ProbeResult::Run);
    assert_eq!(
        probe_result(&ProbeOutcome::ScriptExit(Some(0))),
        ProbeResult::Run
    );
    assert_eq!(
        probe_result(&ProbeOutcome::ScriptExit(Some(1))),
        ProbeResult::Skip
    );
    assert_eq!(
        probe_result(&ProbeOutcome::ScriptExit(None)),
        ProbeResult::Abort
    );
    assert_eq!(
        probe_result(&ProbeOutcome::CodecFound(Some("hevc".to_owned()))),
        ProbeResult::Skip
    );
    assert_eq!(
        probe_result(&ProbeOutcome::CodecFound(Some("h264".to_owned()))),
        ProbeResult::Run
    );
    assert_eq!(
        probe_result(&ProbeOutcome::CodecFound(None)),
        ProbeResult::Abort
    );
}

#[test]
fn aborted_probe_fails_the_run_before_any_task() {
    let mut run = started_run(vec![
        script_task("a", Some("exit 0"), "echo a"),
        script_task("b", Some("exit 0"), "echo b"),
    ]);

    run.record_probe_outcome(ProbeOutcome::ScriptExit(None));
    run.record_probe_outcome(ProbeOutcome::ScriptExit(Some(0)));
    let aborted = run.finish_probing();

    assert!(aborted);
    assert!(run.is_finished());
    match run.into_result() {
        Err(RunnerError::ProbeAborted) => {}
        other => panic!("expected a probe abort, got {:?}", other),
    }
}

#[test]
fn skipped_task_leaves_exactly_the_other_report() {
    let mut run = started_run(vec![
        script_task("a", Some("exit 1"), "echo a"),
        script_task("b", None, "echo b"),
    ]);

    run.record_probe_outcome(ProbeOutcome::ScriptExit(Some(1)));
    run.record_probe_outcome(ProbeOutcome::NotNeeded);
    let aborted = run.finish_probing();
    assert!(!aborted);

    let command = run.next_task().expect("b must run");
    match command {
        TaskCommand::Script { script, env, .. } => {
            assert_eq!(script.as_str(), "echo b");
            assert_eq!(env[0].0.as_str(), "OMZET_INPUT");
            assert_eq!(env[0].1.as_str(), run.paths.input_file.as_str());
        }
        other => panic!("expected a script command, got {:?}", other),
    }
    run.record_task_outcome(ok_outcome(true));
    assert!(run.next_task().is_none());
    assert!(run.ready_to_commit());
    run.record_completion(None);

    let report = run.into_result().expect("run must succeed");
    assert_eq!(report.task_reports.len(), 1);
}

#[test]
fn output_chain_hands_the_next_task_the_same_staged_path() {
    let mut run = started_run(vec![
        script_task("a", None, "transform"),
        script_task("b", None, "consume"),
    ]);

    run.record_probe_outcome(ProbeOutcome::NotNeeded);
    run.record_probe_outcome(ProbeOutcome::NotNeeded);
    assert!(!run.finish_probing());

    let a_output;
    match run.next_task().expect("a must run") {
        TaskCommand::Script { env, .. } => {
            assert_eq!(env[1].0.as_str(), "OMZET_OUTPUT");
            a_output = env[1].1.clone();
            assert_eq!(a_output.as_str(), run.paths.output_file.as_str());
        }
        other => panic!("expected a script command, got {:?}", other),
    }
    run.record_task_outcome(ok_outcome(true));

    match run.next_task().expect("b must run") {
        TaskCommand::Script { env, .. } => {
            assert_eq!(env[0].0.as_str(), "OMZET_INPUT");
            assert_eq!(env[0].1.as_str(), run.paths.input_file.as_str());
        }
        other => panic!("expected a script command, got {:?}", other),
    }
    run.record_task_outcome(ok_outcome(true));
    run.record_completion(None);

    let report = run.into_result().expect("run must succeed");
    assert_eq!(report.task_reports.len(), 2);
}

#[test]
fn missing_output_is_tolerated_and_recorded() {
    let mut run = started_run(vec![
        script_task("a", None, "sideeffect"),
        script_task("b", None, "echo b"),
    ]);

    run.record_probe_outcome(ProbeOutcome::NotNeeded);
    run.record_probe_outcome(ProbeOutcome::NotNeeded);
    assert!(!run.finish_probing());

    run.next_task().expect("a must run");
    run.record_task_outcome(TaskOutcome {
        exit_code: Some(0),
        stdout: "done".to_owned(),
        stderr: "".to_owned(),
        advanced: false,
    });

    assert_eq!(run.warnings.len(), 1);
    assert_eq!(run.warnings[0], 0);
    run.next_task().expect("b still runs on the same input");
    run.record_task_outcome(ok_outcome(true));
    run.record_completion(None);

    let report = run.into_result().expect("run must succeed");
    assert_eq!(report.task_reports.len(), 2);
    assert_eq!(report.task_reports[0].stdout.as_str(), "done");
    assert_eq!(report.task_reports[0].exit_code, Some(0));
}

#[test]
fn empty_workflow_still_succeeds_and_commits() {
    let mut run = started_run(vec![]);

    assert!(!run.finish_probing());
    assert!(run.next_task().is_none());
    assert!(run.ready_to_commit());
    run.record_completion(None);

    let report = run.into_result().expect("run must succeed");
    assert_eq!(report.task_reports.len(), 0);
}

#[test]
fn preparation_failure_ends_the_run_untouched() {
    let workflow = workflow_of(vec![script_task("a", None, "echo a")]);
    let paths = derive_run_paths("/tmp/scratch", "/media/film.mkv");
    let mut run = WorkflowRun::new(workflow, paths);
    run.record_preparation(Some(
        omzet::workflow_runner::PreparationError::UnableToCopySourceFile,
    ));

    assert!(run.is_finished());
    match run.into_result() {
        Err(RunnerError::PreparationFailed(
            omzet::workflow_runner::PreparationError::UnableToCopySourceFile,
        )) => {}
        other => panic!("expected a preparation failure, got {:?}", other),
    }
}

#[test]
fn scratchpad_failure_is_a_preparation_failure() {
    let workflow = workflow_of(vec![]);
    let paths = derive_run_paths("/tmp/scratch", "/media/film.mkv");
    let mut run = WorkflowRun::new(workflow, paths);
    run.record_preparation(Some(
        omzet::workflow_runner::PreparationError::UnableToCreateScratchpad,
    ));
    match run.into_result() {
        Err(RunnerError::PreparationFailed(
            omzet::workflow_runner::PreparationError::UnableToCreateScratchpad,
        )) => {}
        other => panic!("expected a preparation failure, got {:?}", other),
    }
}

#[test]
fn completion_failure_is_reported() {
    let mut run = started_run(vec![]);
    assert!(!run.finish_probing());
    run.record_completion(Some(
        omzet::workflow_runner::CompletionError::UnableToMoveFile,
    ));
    match run.into_result() {
        Err(RunnerError::CompletionFailed(
            omzet::workflow_runner::CompletionError::UnableToMoveFile,
        )) => {}
        other => panic!("expected a completion failure, got {:?}", other),
    }
}

#[test]
fn builtin_task_probe_inspects_the_staged_file() {
    let mut run = started_run(vec![Task::Builtin(
        omzet::workflow::BuiltinTask::TranscodeToH265,
    )]);

    match run.next_probe().expect("one task to probe") {
        ProbeRequest::InspectCodec { input_file } => {
            assert_eq!(input_file.as_str(), run.paths.input_file.as_str());
        }
        other => panic!("expected codec introspection, got {:?}", other),
    }
    run.record_probe_outcome(ProbeOutcome::CodecFound(Some("hevc".to_owned())));
    assert!(!run.finish_probing());
    assert!(run.next_task().is_none(), "an hevc file is skipped");
}

#[test]
fn probe_request_exposes_input_and_task_id() {
    let run = started_run(vec![script_task("check-codec", Some("probe.sh"), "run.sh")]);

    match run.next_probe().expect("one task to probe") {
        ProbeRequest::Script {
            script,
            env,
            working_directory,
        } => {
            assert_eq!(script.as_str(), "probe.sh");
            assert_eq!(working_directory.as_str(), "/tmp/scratch");
            assert_eq!(env[0].0.as_str(), "OMZET_INPUT");
            assert_eq!(env[0].1.as_str(), run.paths.input_file.as_str());
            assert_eq!(env[1].0.as_str(), "OMZET_TASK");
            assert_eq!(env[1].1.as_str(), "check-codec");
        }
        other => panic!("expected a probe script, got {:?}", other),
    }
}

use omzet::job_orchestration::{JobOrchestrator, JobRequest, TaskReport, WorkflowReport};
use omzet::workflow::Workflow;

fn workflow_named(name: &str) -> Workflow {
    Workflow {
        name: name.to_owned(),
        scratchpad_directory: "/tmp/scratch".to_owned(),
        included_extensions: vec!["mkv".to_owned()],
        tasks: vec![],
    }
}

fn request(library: &str, path: &str) -> JobRequest {
    JobRequest::new(
        library.to_owned(),
        path.to_owned(),
        workflow_named("transcode"),
    )
}

#[test]
fn equal_requests_are_deduplicated() {
    let mut orchestrator = JobOrchestrator::new();

    assert!(orchestrator.submit(request("films", "/media/a.mkv")));
    assert!(!orchestrator.submit(request("films", "/media/a.mkv")));

    assert_eq!(orchestrator.queue.len(), 1);
}

#[test]
fn different_requests_both_queue() {
    let mut orchestrator = JobOrchestrator::new();

    assert!(orchestrator.submit(request("films", "/media/a.mkv")));
    assert!(orchestrator.submit(request("films", "/media/b.mkv")));
    assert!(orchestrator.submit(request("series", "/media/a.mkv")));

    assert_eq!(orchestrator.queue.len(), 3);
}

#[test]
fn no_second_worker_while_busy() {
    let mut orchestrator = JobOrchestrator::new();
    orchestrator.submit(request("films", "/media/a.mkv"));
    orchestrator.submit(request("films", "/media/b.mkv"));

    assert!(orchestrator.start_next());
    assert!(orchestrator.is_busy());
    assert_eq!(orchestrator.queue.len(), 1);

    assert!(!orchestrator.start_next(), "busy: nothing else may start");
    assert_eq!(orchestrator.queue.len(), 1, "the queue is left alone");
}

#[test]
fn jobs_start_in_submission_order() {
    let mut orchestrator = JobOrchestrator::new();
    orchestrator.submit(request("films", "/media/a.mkv"));
    orchestrator.submit(request("films", "/media/b.mkv"));

    assert!(orchestrator.start_next());
    let first = orchestrator.finish_running().expect("a job was running");
    assert_eq!(first.file_path.as_str(), "/media/a.mkv");

    assert!(orchestrator.start_next());
    let second = orchestrator.finish_running().expect("a job was running");
    assert_eq!(second.file_path.as_str(), "/media/b.mkv");

    assert!(!orchestrator.start_next(), "the queue is now empty");
}

#[test]
fn finishing_returns_to_idle() {
    let mut orchestrator = JobOrchestrator::new();
    orchestrator.submit(request("films", "/media/a.mkv"));
    assert!(orchestrator.start_next());
    assert!(orchestrator.is_busy());

    let finished = orchestrator.finish_running();
    assert!(finished.is_some());
    assert!(!orchestrator.is_busy());
    assert!(orchestrator.finish_running().is_none());
}

#[test]
fn workflow_reports_carry_their_task_reports() {
    let empty = WorkflowReport::new(workflow_named("transcode"));
    assert_eq!(empty.task_reports.len(), 0);
    assert_eq!(empty.workflow.name.as_str(), "transcode");

    let report = TaskReport::new(Some(2), "out".to_owned(), "err".to_owned());
    assert_eq!(report.exit_code, Some(2));
    let full = WorkflowReport::new_with_reports(workflow_named("transcode"), vec![report]);
    assert_eq!(full.task_reports.len(), 1);
    assert_eq!(full.task_reports[0].stdout.as_str(), "out");
    assert_eq!(full.task_reports[0].stderr.as_str(), "err");
}

use omzet::config::{
    denormalize_config, ConfigError, LibraryConfig, TaskConfig, TaskId, TomlConfig, WorkflowConfig,
};
use omzet::workflow::{BuiltinTask, Task};

fn sample_config() -> TomlConfig {
    TomlConfig {
        libraries: vec![(
            "films".to_owned(),
            LibraryConfig {
                directory: "/media/films".to_owned(),
                workflow: "transcode".to_owned(),
            },
        )],
        workflows: vec![WorkflowConfig {
            name: "transcode".to_owned(),
            scratchpad_directory: "/tmp/scratch".to_owned(),
            included_extensions: vec!["mkv".to_owned(), "mp4".to_owned(), "mkv".to_owned()],
            tasks: vec![
                TaskId("builtin.transcode_to_h265".to_owned()),
                TaskId("notify".to_owned()),
            ],
        }],
        tasks: vec![TaskConfig {
            id: TaskId("notify".to_owned()),
            description: "send a notification".to_owned(),
            probe: None,
            command: "notify-send done".to_owned(),
        }],
    }
}

#[test]
fn build_tasks_resolves_builtin_and_custom_in_order() {
    let config = sample_config();
    let ids = vec![
        TaskId("notify".to_owned()),
        TaskId("builtin.transcode_to_h265".to_owned()),
    ];
    let tasks = config.build_tasks(&ids).expect("all ids resolve");
    assert_eq!(tasks.len(), 2);
    match &tasks[0] {
        Task::Custom(custom) => {
            assert_eq!(custom.id.as_str(), "notify");
            assert_eq!(custom.command.as_str(), "notify-send done");
            assert!(custom.probe.is_none());
        }
        other => panic!("expected the custom task first, got {:?}", other),
    }
    assert!(matches!(
        tasks[1],
        Task::Builtin(BuiltinTask::TranscodeToH265)
    ));
}

#[test]
fn build_tasks_reports_an_unknown_custom_task() {
    let config = sample_config();
    let ids = vec![TaskId("does-not-exist".to_owned())];
    match config.build_tasks(&ids) {
        Err(ConfigError::UnknownCustomTask(name)) => {
            assert_eq!(name.as_str(), "does-not-exist");
        }
        other => panic!("expected an unknown custom task, got {:?}", other),
    }
}

#[test]
fn build_tasks_reports_an_unknown_builtin_task() {
    let config = sample_config();
    let ids = vec![TaskId("builtin.shrink_ray".to_owned())];
    match config.build_tasks(&ids) {
        Err(ConfigError::UnknownBuiltinTask(unknown)) => {
            assert_eq!(unknown.id.as_str(), "builtin.shrink_ray");
        }
        other => panic!("expected an unknown builtin task, got {:?}", other),
    }
}

#[test]
fn build_workflow_dedups_extensions_and_resolves_tasks() {
    let config = sample_config();
    let workflow = config.build_workflow("transcode").expect("workflow exists");
    assert_eq!(workflow.name.as_str(), "transcode");
    assert_eq!(workflow.scratchpad_directory.as_str(), "/tmp/scratch");
    assert_eq!(workflow.included_extensions.len(), 2);
    assert_eq!(workflow.included_extensions[0].as_str(), "mkv");
    assert_eq!(workflow.included_extensions[1].as_str(), "mp4");
    assert_eq!(workflow.tasks.len(), 2);
}

#[test]
fn build_workflow_reports_an_unknown_name() {
    let config = sample_config();
    match config.build_workflow("does-not-exist") {
        Err(ConfigError::UnknownWorkflow(name)) => {
            assert_eq!(name.as_str(), "does-not-exist");
        }
        other => panic!("expected an unknown workflow, got {:?}", other),
    }
}

#[test]
fn denormalize_builds_each_library_with_its_workflow() {
    let config = sample_config();
    let libraries = denormalize_config(&config).expect("config is consistent");
    assert_eq!(libraries.len(), 1);
    assert_eq!(libraries[0].name.as_str(), "films");
    assert_eq!(libraries[0].directory.as_str(), "/media/films");
    assert_eq!(libraries[0].workflow.name.as_str(), "transcode");
    assert_eq!(libraries[0].workflow.tasks.len(), 2);
}

#[test]
fn denormalize_propagates_a_dangling_workflow_reference() {
    let mut config = sample_config();
    config.libraries[0].1.workflow = "gone".to_owned();
    match denormalize_config(&config) {
        Err(ConfigError::UnknownWorkflow(name)) => assert_eq!(name.as_str(), "gone"),
        other => panic!("expected an unknown workflow, got {:?}", other),
    }
}

use omzet::workflow::{BuiltinTask, CustomTask, Library, Task, Workflow};

#[test]
fn task_can_be_created() {
    let task = CustomTask::new(
        "test-task".to_owned(),
        "some description".to_owned(),
        Some("echo probe".to_owned()),
        "echo done".to_owned(),
    );

    assert_eq!("test-task", task.id.as_str());
    assert_eq!("some description", task.description.as_str());
    assert!(task.probe.is_some());
    assert_eq!("echo probe", task.probe.unwrap().as_str());
    assert_eq!("echo done", task.command.as_str());
}

#[test]
fn builtin_task_resolves_from_known_id() {
    let task = BuiltinTask::try_from_id("builtin.transcode_to_h265");
    assert!(matches!(task, Ok(BuiltinTask::TranscodeToH265)));
}

#[test]
fn builtin_task_rejects_unknown_id() {
    let task = BuiltinTask::try_from_id("builtin.shrink_ray");
    match task {
        Ok(_) => panic!("unknown builtin must not resolve"),
        Err(e) => assert_eq!(e.id.as_str(), "builtin.shrink_ray"),
    }
}

#[test]
fn task_description_uses_custom_id_and_builtin_name() {
    let custom = Task::Custom(CustomTask::new(
        "my-task".to_owned(),
        "d".to_owned(),
        None,
        "true".to_owned(),
    ));
    assert_eq!(custom.description(), "my-task");

    let builtin = Task::Builtin(BuiltinTask::TranscodeToH265);
    assert_eq!(builtin.description(), "transcode to h265 (builtin)");
}

#[test]
fn directory_glob_covers_all_extensions() {
    let workflow = Workflow {
        name: "w".to_owned(),
        scratchpad_directory: "/tmp/scratch".to_owned(),
        included_extensions: vec!["mkv".to_owned(), "mp4".to_owned()],
        tasks: vec![],
    };
    let library = Library::new("films".to_owned(), workflow, "/media/films".to_owned());
    assert_eq!(library.directory_glob(), "/media/films/**/*.{mkv,mp4}");
}

#[test]
fn directory_glob_with_single_extension() {
    let workflow = Workflow {
        name: "w".to_owned(),
        scratchpad_directory: "/tmp/scratch".to_owned(),
        included_extensions: vec!["avi".to_owned()],
        tasks: vec![],
    };
    let library = Library::new("films".to_owned(), workflow, "/media".to_owned());
    assert_eq!(library.directory_glob(), "/media/**/*.{avi}");
}

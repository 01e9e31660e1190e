use omzet::staging::{derive_run_paths, generate_output_file_name, generate_target_file};

#[test]
fn runner_test_subject_file_generation() {
    let source_file = "/tmp/test_file.mkv";
    let subject_file = generate_target_file(source_file);

    assert!(subject_file.len() == "test_file.mkv".len() + 37);
}

#[test]
fn util_test_subject_file_generation() {
    let source_file = "/tmp/test_file.mkv";
    let subject_file = generate_target_file(source_file);

    assert!(subject_file.len() == "test_file.mkv".len() + 37);
}

#[test]
fn target_file_keeps_stem_and_extension() {
    let subject_file = generate_target_file("/media/films/holiday.mp4");
    assert!(subject_file.starts_with("holiday-"));
    assert!(subject_file.ends_with(".mp4"));
}

#[test]
fn fresh_suffixes_differ_between_runs() {
    let a = generate_target_file("/tmp/a.mkv");
    let b = generate_target_file("/tmp/a.mkv");
    assert_ne!(a, b);
}

#[test]
fn output_file_name_inserts_out_infix() {
    assert_eq!(
        generate_output_file_name("test_file.mkv"),
        "test_file.out.mkv"
    );
    assert_eq!(generate_output_file_name("a.b.c.avi"), "a.b.c.out.avi");
}

#[test]
fn run_paths_are_distinct_and_inside_the_scratchpad() {
    let paths = derive_run_paths("/tmp/scratch", "/media/films/holiday.mp4");
    assert_eq!(paths.scratchpad_directory.as_str(), "/tmp/scratch");
    assert_eq!(paths.source_file.as_str(), "/media/films/holiday.mp4");
    assert!(paths.input_file.starts_with("/tmp/scratch/holiday-"));
    assert!(paths.input_file.ends_with(".mp4"));
    assert!(paths.output_file.ends_with(".out.mp4"));
    assert_ne!(paths.input_file, paths.source_file);
    assert_ne!(paths.output_file, paths.source_file);
    assert_ne!(paths.input_file, paths.output_file);
    assert_eq!(
        paths.input_file.len(),
        "/tmp/scratch/".len() + "holiday.mp4".len() + 37
    );
    assert_eq!(paths.output_file.len(), paths.input_file.len() + 4);
}

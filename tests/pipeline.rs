use cclean::{
    artifact_directories, artifact_files, artifact_steps, build_dir_removal_outcome,
    cache_dump_args, cache_dump_text, cache_entry_value, clean, clean_target_args, clean_tasks, conan_removal_outcome,
    conan_remove_args, decide_build_dir, extract_artifact_paths, global_clean_outcome,
    ninja_log_outcome, ArtifactStep, BuildDirDecision, CleanTask,
};

fn strings(v: &[&str]) -> Vec<String> {
    v.iter().map(|s| s.to_string()).collect()
}

#[test]
fn runtime_output_entry_yields_its_value() {
    let line = "CMAKE_RUNTIME_OUTPUT_DIRECTORY:STRING=/tmp/out";
    assert_eq!(cache_entry_value(line), Some("/tmp/out".to_string()));
    assert_eq!(extract_artifact_paths(line), strings(&["/tmp/out"]));
}

#[test]
fn unrelated_line_yields_nothing() {
    assert_eq!(cache_entry_value("CMAKE_BUILD_TYPE:STRING=Release"), None);
    assert_eq!(extract_artifact_paths("CMAKE_BUILD_TYPE:STRING=Release"), Vec::<String>::new());
}

#[test]
fn executable_output_entry_yields_its_value() {
    assert_eq!(
        cache_entry_value("EXECUTABLE_OUTPUT_PATH:STRING=bin"),
        Some("bin".to_string())
    );
}

#[test]
fn entry_must_start_the_line_and_be_a_string() {
    assert_eq!(cache_entry_value(" CMAKE_RUNTIME_OUTPUT_DIRECTORY:STRING=/x"), None);
    assert_eq!(cache_entry_value("CMAKE_RUNTIME_OUTPUT_DIRECTORY:PATH=/x"), None);
    assert_eq!(cache_entry_value("CMAKE_RUNTIME_OUTPUT_DIRECTORY:STRING"), None);
    assert_eq!(cache_entry_value("EXECUTABLE_OUTPUT_PATH:STRING=a\nb"), None);
}

#[test]
fn empty_value_is_extracted() {
    assert_eq!(
        cache_entry_value("EXECUTABLE_OUTPUT_PATH:STRING="),
        Some(String::new())
    );
}

#[test]
fn dump_lines_are_scanned_in_order() {
    let dump = "-- Cache values\r\nCMAKE_BUILD_TYPE:STRING=\r\nEXECUTABLE_OUTPUT_PATH:STRING=exe\r\nCMAKE_RUNTIME_OUTPUT_DIRECTORY:STRING=/tmp/out\nCMAKE_C_COMPILER:FILEPATH=/usr/bin/cc\n";
    assert_eq!(extract_artifact_paths(dump), strings(&["exe", "/tmp/out"]));
}

#[test]
fn last_line_without_newline_counts() {
    let dump = "A:BOOL=ON\nEXECUTABLE_OUTPUT_PATH:STRING=out/bin";
    assert_eq!(extract_artifact_paths(dump), strings(&["out/bin"]));
}

#[test]
fn carriage_return_kept_on_unterminated_last_line() {
    let dump = "EXECUTABLE_OUTPUT_PATH:STRING=bin\r";
    assert_eq!(extract_artifact_paths(dump), strings(&["bin\r"]));
}

#[test]
fn empty_dump_yields_nothing() {
    assert_eq!(extract_artifact_paths(""), Vec::<String>::new());
    assert_eq!(extract_artifact_paths("\n\n"), Vec::<String>::new());
}

#[test]
fn non_ascii_values_are_kept_whole() {
    assert_eq!(
        extract_artifact_paths("CMAKE_RUNTIME_OUTPUT_DIRECTORY:STRING=/tmp/sortie-é\n"),
        strings(&["/tmp/sortie-é"])
    );
}

#[test]
fn directories_put_discovered_before_catalog() {
    let dirs = artifact_directories(Some("CMAKE_RUNTIME_OUTPUT_DIRECTORY:STRING=/tmp/out\n"));
    assert_eq!(
        dirs,
        strings(&["/tmp/out", "html", "latex", "Testing", "debug", "x64", "x86", "CMakeFiles"])
    );
}

#[test]
fn failed_query_leaves_catalog_directories() {
    assert_eq!(
        artifact_directories(None),
        strings(&["html", "latex", "Testing", "debug", "x64", "x86", "CMakeFiles"])
    );
}

#[test]
fn second_run_directories_are_within_first() {
    let first = artifact_directories(Some("EXECUTABLE_OUTPUT_PATH:STRING=bin\n"));
    let second = artifact_directories(None);
    assert!(second.iter().all(|d| first.contains(d)));
}

#[test]
fn catalog_files_cover_build_artifacts() {
    let files = artifact_files();
    assert_eq!(files.len(), 14);
    for name in ["build.ninja", "CMakeCache.txt", ".ninja_log", "Makefile", "conan.lock"] {
        assert!(files.contains(&name.to_string()));
    }
    assert_eq!(files[0], "CTestTestfile.cmake");
    assert_eq!(files[13], "conan.lock");
}

#[test]
fn tasks_run_in_fixed_order() {
    assert_eq!(
        clean_tasks(),
        vec![
            CleanTask::GlobalCleanTarget,
            CleanTask::RemoveNinjaLog,
            CleanTask::RemoveConanPackages,
            CleanTask::RemoveBuildDir,
        ]
    );
}

#[test]
fn command_arguments() {
    assert_eq!(clean_target_args("out"), strings(&["--build", "out", "--target", "clean"]));
    assert_eq!(cache_dump_args(), strings(&["-LA"]));
    assert_eq!(conan_remove_args(), strings(&["remove", "-f", "*"]));
}

#[test]
fn tool_outcomes() {
    assert_eq!(
        global_clean_outcome(None),
        Err("unable to launch cmake global clean target".to_string())
    );
    assert_eq!(
        global_clean_outcome(Some(false)),
        Err("unable to complete cmake global clean target".to_string())
    );
    assert_eq!(global_clean_outcome(Some(true)), Ok(()));
    assert_eq!(
        conan_removal_outcome(None),
        Err("unable to launch conan for package removal".to_string())
    );
    assert_eq!(
        conan_removal_outcome(Some(false)),
        Err("unable to complete conan package removal".to_string())
    );
    assert_eq!(conan_removal_outcome(Some(true)), Ok(()));
}

#[test]
fn removal_outcomes() {
    assert_eq!(ninja_log_outcome(true, true), Ok(()));
    assert_eq!(
        ninja_log_outcome(true, false),
        Err("unable to remove .ninja_log from the build directory".to_string())
    );
    assert_eq!(build_dir_removal_outcome(true), Ok(()));
    assert_eq!(
        build_dir_removal_outcome(false),
        Err("unable to remove build directory".to_string())
    );
}

#[test]
fn build_dir_equal_to_cwd_is_kept() {
    let cwd = b"/home/u/project".as_slice();
    assert!(matches!(decide_build_dir(true, Some(cwd), Some(cwd)), BuildDirDecision::Keep));
}

#[test]
fn distinct_build_dir_is_removed() {
    let cwd = b"/home/u/project".as_slice();
    let out = b"/home/u/project/out".as_slice();
    assert!(matches!(decide_build_dir(true, Some(out), Some(cwd)), BuildDirDecision::Remove));
}

#[test]
fn unresolved_paths_fail_without_removal() {
    let p = b"/p".as_slice();
    match decide_build_dir(false, Some(p), Some(p)) {
        BuildDirDecision::Fail(m) => assert_eq!(m, "unable to access current working directory"),
        other => panic!("unexpected {:?}", other),
    }
    match decide_build_dir(true, None, Some(p)) {
        BuildDirDecision::Fail(m) => assert_eq!(m, "unable to canonicalize build directory"),
        other => panic!("unexpected {:?}", other),
    }
    match decide_build_dir(true, Some(p), None) {
        BuildDirDecision::Fail(m) => {
            assert_eq!(m, "unable to canonicalize current working directory")
        }
        other => panic!("unexpected {:?}", other),
    }
}

#[test]
fn clean_collects_failures_in_order() {
    let outcomes: Vec<Result<(), String>> = vec![
        Err("a".to_string()),
        Ok(()),
        Err("b".to_string()),
        Ok(()),
    ];
    assert_eq!(clean(&outcomes), strings(&["a", "b"]));
}

#[test]
fn clean_of_full_success_is_empty() {
    let outcomes: Vec<Result<(), String>> = vec![Ok(()), Ok(()), Ok(()), Ok(())];
    assert_eq!(clean(&outcomes), Vec::<String>::new());
    assert_eq!(clean(&Vec::new()), Vec::<String>::new());
}

#[test]
fn absent_tools_do_not_stop_the_run() {
    let outcomes = vec![
        global_clean_outcome(None),
        ninja_log_outcome(false, false),
        conan_removal_outcome(None),
        build_dir_removal_outcome(true),
    ];
    assert_eq!(
        clean(&outcomes),
        strings(&[
            "unable to launch cmake global clean target",
            "unable to launch conan for package removal",
        ])
    );
}

#[test]
fn missing_ninja_log_is_no_failure() {
    assert_eq!(ninja_log_outcome(false, false), Ok(()));
    let outcomes = vec![Ok(()), ninja_log_outcome(false, false), Ok(()), Ok(())];
    assert_eq!(clean(&outcomes), Vec::<String>::new());
}

#[test]
fn removing_an_absent_log_twice_reports_nothing() {
    let first = ninja_log_outcome(false, false);
    let second = ninja_log_outcome(false, false);
    assert_eq!(first, Ok(()));
    assert_eq!(first, second);
}

#[test]
fn cache_dump_usable_only_after_success() {
    assert_eq!(
        cache_dump_text(Some(true), Some("A:BOOL=ON\n".to_string())),
        Some("A:BOOL=ON\n".to_string())
    );
    assert_eq!(cache_dump_text(Some(true), None), None);
    assert_eq!(cache_dump_text(Some(false), Some("x".to_string())), None);
    assert_eq!(cache_dump_text(None, None), None);
}

#[test]
fn cache_is_read_before_clean_target() {
    assert_eq!(
        artifact_steps(),
        vec![
            ArtifactStep::QueryCache,
            ArtifactStep::GlobalCleanTarget,
            ArtifactStep::RemoveArtifacts,
            ArtifactStep::RemoveConanPackages,
            ArtifactStep::RemoveBuildDir,
        ]
    );
}

#[test]
fn empty_discovered_directory_is_skipped() {
    let dump = "EXECUTABLE_OUTPUT_PATH:STRING=\nCMAKE_RUNTIME_OUTPUT_DIRECTORY:STRING=out\n";
    assert_eq!(extract_artifact_paths(dump), strings(&["", "out"]));
    assert_eq!(
        artifact_directories(Some(dump)),
        strings(&["out", "html", "latex", "Testing", "debug", "x64", "x86", "CMakeFiles"])
    );
}

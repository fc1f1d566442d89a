//! The fixed list of cleanup tasks, the commands they run, and how each
//! task's report becomes a failure description.

use vstd::prelude::*;

verus! {

/// One step of a cleanup run.
#[derive(Clone, Copy, Debug, PartialEq, Eq, Structural)]
pub enum CleanTask {
    /// Run the build system's global clean target in the build directory.
    GlobalCleanTarget,
    /// Remove `.ninja_log` from the build directory.
    RemoveNinjaLog,
    /// Remove every package that Conan has cached.
    RemoveConanPackages,
    /// Remove the build directory itself when it is not the working directory.
    RemoveBuildDir,
}

/// The tasks of a run, in the order in which they run.
pub open spec fn task_order() -> Seq<CleanTask> {
    seq![
        CleanTask::GlobalCleanTarget,
        CleanTask::RemoveNinjaLog,
        CleanTask::RemoveConanPackages,
        CleanTask::RemoveBuildDir,
    ]
}

/// The views of a sequence of strings.
pub open spec fn string_views(v: Seq<String>) -> Seq<Seq<char>> {
    v.map_values(|s: String| s@)
}

/// The tasks of a cleanup run, each once, in order.
pub fn clean_tasks() -> (r: Vec<CleanTask>)
    ensures
        r@ == task_order(),
{
    let r = vec![
        CleanTask::GlobalCleanTarget,
        CleanTask::RemoveNinjaLog,
        CleanTask::RemoveConanPackages,
        CleanTask::RemoveBuildDir,
    ];
    assert(r@ =~= task_order());
    r
}

/// Arguments to `cmake` that run the global clean target of `build_dir`.
pub fn clean_target_args(build_dir: &str) -> (r: Vec<String>)
    ensures
        string_views(r@) == seq!["--build"@, build_dir@, "--target"@, "clean"@],
{
    let r = vec![
        "--build".to_owned(),
        build_dir.to_owned(),
        "--target".to_owned(),
        "clean".to_owned(),
    ];
    assert(string_views(r@) =~= seq!["--build"@, build_dir@, "--target"@, "clean"@]);
    r
}

/// Arguments to `cmake` that dump the variable cache of the current directory.
pub fn cache_dump_args() -> (r: Vec<String>)
    ensures
        string_views(r@) == seq!["-LA"@],
{
    let r = vec!["-LA".to_owned()];
    assert(string_views(r@) =~= seq!["-LA"@]);
    r
}

/// Arguments to `conan` that remove every cached package.
pub fn conan_remove_args() -> (r: Vec<String>)
    ensures
        string_views(r@) == seq!["remove"@, "-f"@, "*"@],
{
    let r = vec!["remove".to_owned(), "-f".to_owned(), "*".to_owned()];
    assert(string_views(r@) =~= seq!["remove"@, "-f"@, "*"@]);
    r
}

/// The report of a tool run: `None` when it could not be launched, else
/// whether it exited with success; with the two failure descriptions.
pub open spec fn tool_report(
    status: Option<bool>,
    launch_failure: Seq<char>,
    exit_failure: Seq<char>,
    r: Result<(), String>,
) -> bool {
    match status {
        None => r matches Err(m) && m@ == launch_failure,
        Some(false) => r matches Err(m) && m@ == exit_failure,
        Some(true) => r is Ok,
    }
}

/// What the global clean target reports, given how `cmake` ended (`None`:
/// it could not be launched; `Some(success)`: it exited).
pub fn global_clean_outcome(status: Option<bool>) -> (r: Result<(), String>)
    ensures
        tool_report(
            status,
            "unable to launch cmake global clean target"@,
            "unable to complete cmake global clean target"@,
            r,
        ),
{
    match status {
        None => Err("unable to launch cmake global clean target".to_owned()),
        Some(false) => Err("unable to complete cmake global clean target".to_owned()),
        Some(true) => Ok(()),
    }
}

/// What the Conan package removal reports, given how `conan` ended (`None`:
/// it could not be launched; `Some(success)`: it exited).
pub fn conan_removal_outcome(status: Option<bool>) -> (r: Result<(), String>)
    ensures
        tool_report(
            status,
            "unable to launch conan for package removal"@,
            "unable to complete conan package removal"@,
            r,
        ),
{
    match status {
        None => Err("unable to launch conan for package removal".to_owned()),
        Some(false) => Err("unable to complete conan package removal".to_owned()),
        Some(true) => Ok(()),
    }
}

/// What the removal of `.ninja_log` reports. `existed` says whether the file
/// was there to remove, `removed` whether removing it succeeded. A log that
/// is already gone is no failure.
pub fn ninja_log_outcome(existed: bool, removed: bool) -> (r: Result<(), String>)
    ensures
        (!existed || removed) ==> r is Ok,
        (existed && !removed) ==> (r matches Err(m) && m@
            == "unable to remove .ninja_log from the build directory"@),
{
    if !existed || removed {
        Ok(())
    } else {
        Err("unable to remove .ninja_log from the build directory".to_owned())
    }
}

/// One step of the cache-reading cleanup run.
#[derive(Clone, Copy, Debug, PartialEq, Eq, Structural)]
pub enum ArtifactStep {
    /// Dump the CMake variable cache, while it still exists.
    QueryCache,
    /// Run the build system's global clean target.
    GlobalCleanTarget,
    /// Remove the artifact directories and files of the run.
    RemoveArtifacts,
    /// Remove every package that Conan has cached.
    RemoveConanPackages,
    /// Remove the build directory itself when it is not the working directory.
    RemoveBuildDir,
}

/// The steps of the cache-reading run, in the order in which they run: the
/// cache is read before the clean target can remove it, and the build
/// directory goes last, once the artifacts inside it are gone.
pub open spec fn artifact_step_order() -> Seq<ArtifactStep> {
    seq![
        ArtifactStep::QueryCache,
        ArtifactStep::GlobalCleanTarget,
        ArtifactStep::RemoveArtifacts,
        ArtifactStep::RemoveConanPackages,
        ArtifactStep::RemoveBuildDir,
    ]
}

/// The steps of the cache-reading run, each once, in order.
pub fn artifact_steps() -> (r: Vec<ArtifactStep>)
    ensures
        r@ == artifact_step_order(),
{
    let r = vec![
        ArtifactStep::QueryCache,
        ArtifactStep::GlobalCleanTarget,
        ArtifactStep::RemoveArtifacts,
        ArtifactStep::RemoveConanPackages,
        ArtifactStep::RemoveBuildDir,
    ];
    assert(r@ =~= artifact_step_order());
    r
}

/// The text of a cache dump that may be read: `status` is how `cmake -LA`
/// ended (`None`: it could not be launched; `Some(success)`: it exited) and
/// `decoded` its output as text, `None` where it was not valid UTF-8. Only
/// a successful query with decodable output gives text; any other query
/// gives `None`, and discovery then finds nothing.
pub fn cache_dump_text(status: Option<bool>, decoded: Option<String>) -> (r: Option<String>)
    ensures
        r == (match (status, decoded) {
            (Some(true), Some(t)) => Some(t),
            _ => None,
        }),
{
    match status {
        Some(true) => decoded,
        _ => None,
    }
}

/// The failure descriptions among the reports of a run, in order.
pub open spec fn failures(outcomes: Seq<Result<(), String>>) -> Seq<Seq<char>>
    decreases outcomes.len(),
{
    if outcomes.len() == 0 {
        seq![]
    } else {
        let rest = failures(outcomes.drop_last());
        match outcomes.last() {
            Ok(_) => rest,
            Err(m) => rest.push(m@),
        }
    }
}

/// Aggregates the reports of the tasks of a run: every failure description,
/// in the order of the tasks; empty when every task succeeded. A failure
/// never hides the reports that follow it.
pub fn clean(outcomes: &Vec<Result<(), String>>) -> (r: Vec<String>)
    ensures
        string_views(r@) == failures(outcomes@),
{
    let mut errs: Vec<String> = Vec::new();
    let mut i: usize = 0;
    while i < outcomes.len()
        invariant
            i <= outcomes.len(),
            string_views(errs@) == failures(outcomes@.subrange(0, i as int)),
        decreases outcomes.len() - i,
    {
        let ghost before = errs@;
        assert(outcomes@.subrange(0, i + 1).drop_last() =~= outcomes@.subrange(0, i as int));
        match &outcomes[i] {
            Ok(_) => {},
            Err(m) => {
                errs.push(m.clone());
                assert(string_views(errs@) =~= string_views(before).push(m@));
            },
        }
        i = i + 1;
    }
    assert(outcomes@.subrange(0, i as int) =~= outcomes@);
    errs
}

} // verus!

//! Cleanup of the artifacts that CMake, Ninja, Make, MSVC, Doxygen, CTest and
//! Conan leave in a project tree.
//!
//! The library decides; the caller acts. It names the cleanup tasks and the
//! commands they run, reads a CMake cache dump for the artifact directories it
//! configures, lists the artifacts that are always safe to remove, decides
//! whether a build directory may be removed, and turns what each task reported
//! into the list of failures of a run.

pub mod catalog;
pub mod matcher;
pub mod reconcile;
pub mod tasks;

pub use catalog::{
    artifact_directories, artifact_files, lemma_rerun_directories_within_first,
    lemma_run_covers_ninja_build,
};
pub use matcher::{cache_entry_value, extract_artifact_paths};
pub use reconcile::{build_dir_removal_outcome, decide_build_dir, BuildDirDecision};
pub use tasks::{
    artifact_steps, cache_dump_args, cache_dump_text, clean, clean_target_args, clean_tasks, conan_removal_outcome,
    conan_remove_args, global_clean_outcome, ninja_log_outcome, ArtifactStep, CleanTask,
};

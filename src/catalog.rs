//! The artifacts that are always candidates for removal, and the full
//! removal plan of a run: what the cache dump names, then the catalog.

use vstd::prelude::*;

use crate::matcher::{artifact_paths, extract_artifact_paths};
use crate::tasks::string_views;

verus! {

/// Directories that are always removed: Doxygen output, CTest state, MSVC
/// platform and configuration directories, and CMake's internal state.
pub open spec fn catalog_directories() -> Seq<Seq<char>> {
    seq![
        "html"@,
        "latex"@,
        "Testing"@,
        "debug"@,
        "x64"@,
        "x86"@,
        "CMakeFiles"@,
    ]
}

/// Files that are removed where they exist: CMake and CTest caches and
/// scripts, Make and Ninja build files and logs, Conan metadata and locks.
pub open spec fn catalog_files() -> Seq<Seq<char>> {
    seq![
        "CTestTestfile.cmake"@,
        "debug.log"@,
        "install_manifest.txt"@,
        "Makefile"@,
        ".ninja_log"@,
        ".ninja_deps"@,
        "build.ninja"@,
        "cmake_install.cmake"@,
        "CMakeCache.txt"@,
        "conanbuildinfo.cmake"@,
        "conanbuildinfo.txt"@,
        "conaninfo.txt"@,
        "graph_info.json"@,
        "conan.lock"@,
    ]
}

/// The paths among `s` that are not empty, in order.
pub open spec fn nonempty_paths(s: Seq<Seq<char>>) -> Seq<Seq<char>>
    decreases s.len(),
{
    if s.len() == 0 {
        seq![]
    } else if s.last().len() == 0 {
        nonempty_paths(s.drop_last())
    } else {
        nonempty_paths(s.drop_last()).push(s.last())
    }
}

/// The directories to remove in a run. `cache_dump` is the text of the cache
/// query, or `None` when no usable dump was had: discovery is best-effort.
/// The directories that the dump names come first, then the catalog. An
/// entry with an empty value names no directory and is left out, so that it
/// can never stand for the build directory itself.
pub fn artifact_directories(cache_dump: Option<&str>) -> (r: Vec<String>)
    ensures
        string_views(r@) == nonempty_paths(
            match cache_dump {
                Some(text) => artifact_paths(text@),
                None => seq![],
            },
        ) + catalog_directories(),
{
    let found: Vec<String> = match cache_dump {
        Some(text) => extract_artifact_paths(text),
        None => Vec::new(),
    };
    let mut r: Vec<String> = Vec::new();
    let mut i: usize = 0;
    while i < found.len()
        invariant
            i <= found@.len(),
            string_views(r@) == nonempty_paths(string_views(found@.subrange(0, i as int))),
        decreases found@.len() - i,
    {
        let ghost before = string_views(r@);
        assert(string_views(found@.subrange(0, i + 1)).drop_last() =~= string_views(
            found@.subrange(0, i as int),
        ));
        assert(string_views(found@.subrange(0, i + 1)).last() == found@[i as int]@);
        if !found[i].as_str().is_empty() {
            r.push(found[i].clone());
            assert(string_views(r@) =~= before.push(found@[i as int]@));
        }
        i = i + 1;
    }
    assert(found@.subrange(0, i as int) =~= found@);
    let ghost kept = string_views(r@);
    let mut catalog: Vec<String> = vec![
        "html".to_owned(),
        "latex".to_owned(),
        "Testing".to_owned(),
        "debug".to_owned(),
        "x64".to_owned(),
        "x86".to_owned(),
        "CMakeFiles".to_owned(),
    ];
    assert(string_views(catalog@) =~= catalog_directories());
    r.append(&mut catalog);
    assert(string_views(r@) =~= kept + catalog_directories());
    r
}

/// Whatever the cache dump says, a run removes `CMakeFiles` among its
/// directories and `build.ninja`, `CMakeCache.txt` and `.ninja_log` among its
/// files: the artifacts of a Ninja build left in the tree are all asked for.
pub proof fn lemma_run_covers_ninja_build(cache_dump: Option<Seq<char>>)
    ensures
        (nonempty_paths(
            match cache_dump {
                Some(text) => artifact_paths(text),
                None => seq![],
            },
        ) + catalog_directories()).contains("CMakeFiles"@),
        catalog_files().contains("build.ninja"@),
        catalog_files().contains("CMakeCache.txt"@),
        catalog_files().contains(".ninja_log"@),
{
    let found = nonempty_paths(
        match cache_dump {
            Some(text) => artifact_paths(text),
            None => seq![],
        },
    );
    let dirs = found + catalog_directories();
    assert(dirs[found.len() + 6int] == "CMakeFiles"@);
    assert(catalog_files()[6] == "build.ninja"@);
    assert(catalog_files()[8] == "CMakeCache.txt"@);
    assert(catalog_files()[4] == ".ninja_log"@);
}

/// Every directory that a run without a cache dump would remove (as in a
/// run after a cleanup, the cache being gone) is one that a run with any
/// dump removes too: a second run asks for no directory that the first one
/// left out.
pub proof fn lemma_rerun_directories_within_first(text: Seq<char>)
    ensures
        forall|d: Seq<char>|
            (nonempty_paths(seq![]) + catalog_directories()).contains(d) ==> #[trigger] (
            nonempty_paths(artifact_paths(text)) + catalog_directories()).contains(d),
{
    let none = nonempty_paths(seq![]) + catalog_directories();
    let full = nonempty_paths(artifact_paths(text)) + catalog_directories();
    assert(none =~= catalog_directories());
    assert forall|d: Seq<char>| none.contains(d) implies #[trigger] full.contains(d) by {
        let i = choose|i: int| 0 <= i < none.len() && none[i] == d;
        assert(full[nonempty_paths(artifact_paths(text)).len() + i] == d);
    }
}

/// The files to remove in a run, where they exist.
pub fn artifact_files() -> (r: Vec<String>)
    ensures
        string_views(r@) == catalog_files(),
{
    let r: Vec<String> = vec![
        "CTestTestfile.cmake".to_owned(),
        "debug.log".to_owned(),
        "install_manifest.txt".to_owned(),
        "Makefile".to_owned(),
        ".ninja_log".to_owned(),
        ".ninja_deps".to_owned(),
        "build.ninja".to_owned(),
        "cmake_install.cmake".to_owned(),
        "CMakeCache.txt".to_owned(),
        "conanbuildinfo.cmake".to_owned(),
        "conanbuildinfo.txt".to_owned(),
        "conaninfo.txt".to_owned(),
        "graph_info.json".to_owned(),
        "conan.lock".to_owned(),
    ];
    assert(string_views(r@) =~= catalog_files());
    r
}

} // verus!

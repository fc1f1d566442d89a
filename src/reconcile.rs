//! Whether a build directory may be removed: only when both it and the
//! working directory resolve to canonical paths, and those paths differ.

use vstd::prelude::*;

verus! {

/// What to do with the build directory.
#[derive(Debug)]
pub enum BuildDirDecision {
    /// Leave it: it is the working directory itself.
    Keep,
    /// Remove it (a non-recursive removal, which fails unless it is empty).
    Remove,
    /// A path could not be resolved; nothing is removed.
    Fail(String),
}

/// The decision owed for the given resolutions of the working directory and
/// of the build directory, checked in that order.
pub open spec fn build_dir_verdict(
    cwd_found: bool,
    build_abs: Option<Seq<u8>>,
    cwd_abs: Option<Seq<u8>>,
    d: BuildDirDecision,
) -> bool {
    if !cwd_found {
        d matches BuildDirDecision::Fail(m) && m@ == "unable to access current working directory"@
    } else if build_abs is None {
        d matches BuildDirDecision::Fail(m) && m@ == "unable to canonicalize build directory"@
    } else if cwd_abs is None {
        d matches BuildDirDecision::Fail(m) && m@
            == "unable to canonicalize current working directory"@
    } else if build_abs->0 == cwd_abs->0 {
        d is Keep
    } else {
        d is Remove
    }
}

/// Decides about the build directory. `cwd_found` says whether the working
/// directory could be read; `build_abs` and `cwd_abs` are the canonical
/// forms of the build directory and of the working directory, as bytes,
/// `None` where resolving failed.
///
/// The build directory is removed exactly when both resolve and differ: a
/// build directory that is the working directory is never removed, and one
/// that resolves elsewhere always is.
pub fn decide_build_dir(
    cwd_found: bool,
    build_abs: Option<&[u8]>,
    cwd_abs: Option<&[u8]>,
) -> (d: BuildDirDecision)
    ensures
        build_dir_verdict(
            cwd_found,
            match build_abs { Some(b) => Some(b@), None => None },
            match cwd_abs { Some(c) => Some(c@), None => None },
            d,
        ),
        (d is Remove) <==> (cwd_found && build_abs is Some && cwd_abs is Some
            && build_abs->0@ != cwd_abs->0@),
        (cwd_found && build_abs is Some && cwd_abs is Some && build_abs->0@ == cwd_abs->0@)
            ==> d is Keep,
{
    if !cwd_found {
        return BuildDirDecision::Fail("unable to access current working directory".to_owned());
    }
    match build_abs {
        None => BuildDirDecision::Fail("unable to canonicalize build directory".to_owned()),
        Some(b) => match cwd_abs {
            None => BuildDirDecision::Fail(
                "unable to canonicalize current working directory".to_owned(),
            ),
            Some(c) => {
                if same_bytes(b, c) {
                    BuildDirDecision::Keep
                } else {
                    BuildDirDecision::Remove
                }
            },
        },
    }
}

/// Whether two byte strings are equal.
fn same_bytes(a: &[u8], b: &[u8]) -> (r: bool)
    ensures
        r == (a@ == b@),
{
    if a.len() != b.len() {
        return false;
    }
    let mut i: usize = 0;
    while i < a.len()
        invariant
            a@.len() == b@.len(),
            i <= a@.len(),
            forall|j: int| 0 <= j < i ==> a@[j] == b@[j],
        decreases a@.len() - i,
    {
        if a[i] != b[i] {
            return false;
        }
        i = i + 1;
    }
    assert(a@ =~= b@);
    true
}

/// What removing the build directory reports, given whether it was removed.
pub fn build_dir_removal_outcome(removed: bool) -> (r: Result<(), String>)
    ensures
        removed ==> r is Ok,
        !removed ==> (r matches Err(m) && m@ == "unable to remove build directory"@),
{
    if removed {
        Ok(())
    } else {
        Err("unable to remove build directory".to_owned())
    }
}

} // verus!

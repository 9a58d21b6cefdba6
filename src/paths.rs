//! Paths of files on disk: the parent of a path, and the file-system steps
//! that unpack one archive entry.

use vstd::prelude::*;
use crate::text::{join_path, joined};

verus! {

/// What `std::path::Path::parent` gives for a path.
pub uninterp spec fn path_parent(p: Seq<char>) -> Option<Seq<char>>;

/// Relies on `std::path::Path::parent`: the path without its final
/// component, and none for an empty path.
#[verifier::external_body]
fn parent_of(p: &str) -> (r: Option<String>)
    ensures
        match r {
            Some(q) => path_parent(p@) == Some(q@),
            None => path_parent(p@) is None,
        },
        p@.len() == 0 ==> r is None,
{
    match std::path::Path::new(p).parent() {
        Some(q) => Some(q.to_string_lossy().into_owned()),
        None => None,
    }
}

/// The directory that holds `dir`, if it has one.
pub fn get_file_parent_directory(dir: &str) -> (r: Option<String>)
    ensures
        match r {
            Some(q) => path_parent(dir@) == Some(q@),
            None => path_parent(dir@) is None,
        },
        dir@.len() == 0 ==> r is None,
{
    parent_of(dir)
}

/// One file-system step of unpacking.
#[derive(Clone, Debug, PartialEq, Eq)]
pub enum FsStep {
    /// Create the directory and all its missing ancestors.
    MakeDirs(String),
    /// Create the file and copy the entry's bytes into it.
    WriteFile(String),
}

/// The step is `MakeDirs` (when `dir`) or `WriteFile` of a path reading `p`.
pub open spec fn step_is(s: FsStep, dir: bool, p: Seq<char>) -> bool {
    match s {
        FsStep::MakeDirs(q) => dir && q@ == p,
        FsStep::WriteFile(q) => !dir && q@ == p,
    }
}

/// The steps that unpack the archive entry `entry` under `dest`: first the
/// entry's parent directory, when its path has one, then the entry itself,
/// a directory or a file.
pub fn entry_steps(dest: &str, entry: &str, is_dir: bool) -> (r: Vec<FsStep>)
    ensures
        ({
            let out = joined(dest@, entry@);
            match path_parent(out) {
                Some(p) => r@.len() == 2 && step_is(r@[0], true, p) && step_is(r@[1], is_dir, out),
                None => r@.len() == 1 && step_is(r@[0], is_dir, out),
            }
        }),
{
    let out = join_path(dest, entry);
    let mut steps: Vec<FsStep> = Vec::new();
    if let Some(p) = parent_of(out.as_str()) {
        steps.push(FsStep::MakeDirs(p));
    }
    if is_dir {
        steps.push(FsStep::MakeDirs(out));
    } else {
        steps.push(FsStep::WriteFile(out));
    }
    steps
}

} // verus!

//! The list of what version control is to ignore in a project.

use crate::invocation::{inside, path_inside};
use crate::project::Project;
use vstd::prelude::*;

verus! {

/// What the ignore list of a project holds: the build directory, the object
/// directory and the lock file.
pub const IGNORE_CONTENT: &'static str = "/build/\n/obj/\nOcean.lock";

/// A file to write: where, and what.
#[derive(Debug)]
pub struct FileToWrite {
    pub path: String,
    pub content: String,
}

/// The ignore list of `project`: `.gitignore` in the directory of the
/// project's name, which names the build directory, the object directory
/// and the lock file.
pub fn write_ignore(project: &Project) -> (r: FileToWrite)
    ensures
        r.path@ == inside(project@.name, ".gitignore"@),
        r.content@ == IGNORE_CONTENT@,
{
    FileToWrite {
        path: path_inside(project.get_name().as_str(), ".gitignore"),
        content: IGNORE_CONTENT.to_owned(),
    }
}

} // verus!

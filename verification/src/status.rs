//! The status report on the project's mandatory files: which of a file's
//! accepted locations is present, and which name to show when none is.

use vstd::prelude::*;

verus! {

/// One accepted location of a project file, together with whether a file
/// exists there.
pub struct FileProbe {
    /// Path relative to the project root.
    pub path: String,
    /// Whether the file exists.
    pub exists: bool,
}

/// The reported status of one project file: the path shown, and whether a
/// file was found.
pub struct ProjectFile {
    /// Path relative to the project root.
    pub path: String,
    /// Whether a file was found at any accepted location.
    pub found: bool,
}

/// Determine the status of a project file from its accepted locations: the
/// first location where a file exists is reported as found; with none, the
/// first accepted location is reported as missing, or an empty path when
/// there is no location at all.
pub fn project_file_status(candidates: &Vec<FileProbe>) -> (r: ProjectFile)
    ensures
        r.found == exists|i: int| 0 <= i < candidates@.len() && #[trigger] candidates@[i].exists,
        r.found ==> exists|i: int|
            0 <= i < candidates@.len() && #[trigger] candidates@[i].exists && r.path@
                == candidates@[i].path@ && (forall|j: int| 0 <= j < i ==> !candidates@[j].exists),
        !r.found && candidates@.len() > 0 ==> r.path@ == candidates@[0].path@,
        !r.found && candidates@.len() == 0 ==> r.path@ == Seq::<char>::empty(),
{
    let n = candidates.len();
    for i in 0..n
        invariant
            n == candidates@.len(),
            forall|j: int| 0 <= j < i ==> !candidates@[j].exists,
    {
        if candidates[i].exists {
            return ProjectFile { path: candidates[i].path.clone(), found: true };
        }
    }
    if n > 0 {
        return ProjectFile { path: candidates[0].path.clone(), found: false };
    }
    ProjectFile { path: String::new(), found: false }
}

} // verus!

//! An open project.

use crate::project::project_manager::ProjectInfo;
use vstd::prelude::*;

verus! {

/// An open project: the beatmap file it was read from and its name.
#[derive(Debug, Clone)]
pub struct Project {
    pub path: String,
    pub name: String,
}

impl Project {
    /// The project read from `path`, under the name `name`.
    pub fn from_path(path: &str, name: String) -> (project: Project)
        ensures
            project.path@ == path@,
            project.name@ == name@,
    {
        Project { path: path.to_owned(), name }
    }

    /// What the list of recent projects keeps of this project.
    pub fn info(&self) -> (info: ProjectInfo)
        ensures
            info.path@ == self.path@,
            info.name@ == self.name@,
    {
        ProjectInfo { path: self.path.clone(), name: self.name.clone() }
    }
}

} // verus!

//! The current project and the list of recent ones.

use crate::beatmap::beatmap::Beatmap;
use crate::beatmap::parser::osu_taiko::circles;
use crate::beatmap::parser::osu_taiko::parse;
use crate::beatmap::parser::osu_taiko::read;
use crate::beatmap::parser::osu_taiko::ParseError;
use crate::beatmap::parser::osu_taiko::TaikoCircle;
use crate::project::project::Project;
use vstd::prelude::*;
use vstd::string::StringExecFns;

verus! {

/// What is kept of a project that was opened.
#[derive(Debug, Clone)]
pub struct ProjectInfo {
    pub path: String,
    pub name: String,
}

/// The current project and the recent ones, most recent first.
#[derive(Debug, Clone)]
pub struct ProjectManager {
    pub current: Option<Project>,
    pub recent: Vec<ProjectInfo>,
}

/// The paths and names of a list of projects.
pub open spec fn entries(recent: Seq<ProjectInfo>) -> Seq<(Seq<char>, Seq<char>)> {
    Seq::new(recent.len(), |i: int| (recent[i].path@, recent[i].name@))
}

/// The first position behind the head of `recent` that holds `path`, or the
/// length of `recent` if there is none.
pub open spec fn position_behind_head(recent: Seq<(Seq<char>, Seq<char>)>, path: Seq<char>, from: int)
    -> int
    decreases recent.len() - from,
{
    if from >= recent.len() {
        recent.len() as int
    } else if recent[from].0 == path {
        from
    } else {
        position_behind_head(recent, path, from + 1)
    }
}

/// The list of recent projects after the project at `path`, named `name`,
/// was opened. A project found behind the head of the list changes place
/// with the head. A project that is not in the list goes to its front. A
/// project at the head of the list leaves the list as it is.
pub open spec fn opened(recent: Seq<(Seq<char>, Seq<char>)>, path: Seq<char>, name: Seq<char>)
    -> Seq<(Seq<char>, Seq<char>)> {
    let found = position_behind_head(recent, path, 1);
    if recent.len() > 1 && found < recent.len() {
        recent.update(0, recent[found]).update(found, recent[0])
    } else if recent.len() > 0 && recent[0].0 == path {
        recent
    } else {
        seq![(path, name)] + recent
    }
}

/// The name that a project gets from the header of its beatmap.
pub open spec fn project_name(artist: Seq<char>, title: Seq<char>) -> Seq<char> {
    artist + " - "@ + title
}

impl Default for ProjectManager {
    fn default() -> (manager: ProjectManager)
        ensures
            manager.current.is_none(),
            manager.recent@.len() == 0,
    {
        ProjectManager { current: None, recent: Vec::new() }
    }
}

impl ProjectManager {
    /// Finds the first position from `from` on at which `recent` holds
    /// `path`.
    fn find_recent(recent: &Vec<ProjectInfo>, path: &String, from: usize) -> (at: usize)
        requires
            from <= recent@.len(),
        ensures
            at == position_behind_head(entries(recent@), path@, from as int),
            from <= at <= recent@.len(),
    {
        let mut at: usize = from;
        while at < recent.len()
            invariant
                from <= at <= recent@.len(),
                position_behind_head(entries(recent@), path@, from as int) == position_behind_head(
                    entries(recent@),
                    path@,
                    at as int,
                ),
            decreases recent@.len() - at,
        {
            if recent[at].path == *path {
                return at;
            }
            at += 1;
        }
        at
    }

    /// Records in the list of recent projects that `project` was opened.
    pub fn remember(&mut self, project: &Project)
        ensures
            entries(final(self).recent@) == opened(
                entries(old(self).recent@),
                project.path@,
                project.name@,
            ),
            final(self).current == old(self).current,
    {
        let ghost before = entries(self.recent@);
        if self.recent.len() > 1 {
            let found = Self::find_recent(&self.recent, &project.path, 1);
            if found < self.recent.len() {
                let later = self.recent.remove(found);
                let head = self.recent.remove(0);
                self.recent.insert(0, later);
                self.recent.insert(found, head);
                assert(entries(self.recent@) =~= before.update(0, before[found as int]).update(
                    found as int,
                    before[0],
                ));
                return ;
            }
        }
        if self.recent.len() > 0 && self.recent[0].path == project.path {
            return ;
        }
        self.recent.insert(0, project.info());
        assert(entries(self.recent@) =~= seq![(project.path@, project.name@)] + before);
    }

    /// Opens the beatmap that was read from `path` as `data`: reads it, makes
    /// it the current project under the name that its header gives, and
    /// records it in the list of recent projects. Fails exactly when the
    /// beatmap cannot be read, and then changes nothing.
    pub fn open(&mut self, path: &str, data: &str) -> (opened_map: Result<
        (Beatmap, Vec<TaikoCircle>),
        ParseError,
    >)
        ensures
            match opened_map {
                Ok((beatmap, objects)) => {
                    &&& read(data@).is_some()
                    &&& beatmap.title@ == read(data@).unwrap().title
                    &&& beatmap.artist@ == read(data@).unwrap().artist
                    &&& beatmap.audio@ == read(data@).unwrap().audio
                    &&& beatmap.creator@ == Seq::<char>::empty()
                    &&& circles(objects@) == read(data@).unwrap().objects
                    &&& final(self).current.is_some()
                    &&& final(self).current.unwrap().path@ == path@
                    &&& final(self).current.unwrap().name@ == project_name(
                        beatmap.artist@,
                        beatmap.title@,
                    )
                    &&& entries(final(self).recent@) == opened(
                        entries(old(self).recent@),
                        path@,
                        project_name(beatmap.artist@, beatmap.title@),
                    )
                },
                Err(_) => read(data@).is_none() && *final(self) == *old(self),
            },
    {
        let (beatmap, objects) = match parse(data) {
            Ok(parsed) => parsed,
            Err(error) => {
                return Err(error);
            },
        };
        let name = beatmap.artist.clone().concat(" - ").concat(beatmap.title.as_str());
        let project = Project::from_path(path, name);
        self.remember(&project);
        self.current = Some(project);
        Ok((beatmap, objects))
    }
}

} // verus!

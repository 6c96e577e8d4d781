//! The current project and the list of recent ones, for callers that want
//! the notes of a beatmap with their properties spelled out.

use crate::beatmap::beatmap::Beatmap;
use crate::beatmap::component::adapter::taiko::bit_of;
use crate::beatmap::component::adapter::taiko::TaikoVariantAdapter;
use crate::beatmap::component::adapter::taiko::BIG_BIT;
use crate::beatmap::component::adapter::taiko::COLOR_BIT;
use crate::beatmap::parser::osu_taiko::circles;
use crate::beatmap::parser::osu_taiko::parse;
use crate::beatmap::parser::osu_taiko::read;
use crate::beatmap::parser::osu_taiko::ParseError;
use crate::beatmap::parser::osu_taiko::TaikoCircle;
use crate::beatmap::taiko::hitobject::HitObject;
use crate::project::project::Project;
use crate::project::project_manager::position_behind_head;
use crate::project::project_manager::project_name;
use vstd::prelude::*;
use vstd::string::StringExecFns;

verus! {

/// What is kept of a project that was opened.
#[derive(Debug, Clone)]
pub struct ProjectInfo {
    pub path: String,
    pub name: String,
}

/// The current project and the recent ones, most recent first.
#[derive(Debug, Clone)]
pub struct Projects {
    pub current: Option<Project>,
    pub recent: Vec<ProjectInfo>,
}

/// The paths and names of a list of projects.
pub open spec fn entries(recent: Seq<ProjectInfo>) -> Seq<(Seq<char>, Seq<char>)> {
    Seq::new(recent.len(), |i: int| (recent[i].path@, recent[i].name@))
}

/// The list of recent projects after the project at `path`, named `name`,
/// was opened. In a list of more than one, a project found behind the head
/// changes place with the head, and any other project goes to the front,
/// also one that is the head already. In a shorter list a project goes to
/// the front unless it is in the list.
pub open spec fn opened(recent: Seq<(Seq<char>, Seq<char>)>, path: Seq<char>, name: Seq<char>)
    -> Seq<(Seq<char>, Seq<char>)> {
    let found = position_behind_head(recent, path, 1);
    if recent.len() > 1 {
        if found < recent.len() {
            recent.update(0, recent[found]).update(found, recent[0])
        } else {
            seq![(path, name)] + recent
        }
    } else if recent.len() == 1 && recent[0].0 == path {
        recent
    } else {
        seq![(path, name)] + recent
    }
}

/// A note as its time in milliseconds, whether it is a kat and whether it is
/// big.
pub open spec fn note_of(circle: (u32, u32)) -> (u32, bool, bool) {
    (circle.0, bit_of(circle.1, COLOR_BIT), bit_of(circle.1, BIG_BIT))
}

/// The notes of a list of circles, each given as its time and variant bits.
pub open spec fn notes_of(objects: Seq<(u32, u32)>) -> Seq<(u32, bool, bool)> {
    Seq::new(objects.len(), |i: int| note_of(objects[i]))
}

/// The notes as time, kat and big.
pub open spec fn notes(objects: Seq<HitObject>) -> Seq<(u32, bool, bool)> {
    Seq::new(objects.len(), |i: int| (objects[i].time@ as u32, objects[i].kat, objects[i].big))
}

impl Default for Projects {
    fn default() -> (projects: Projects)
        ensures
            projects.current.is_none(),
            projects.recent@.len() == 0,
    {
        Projects { current: None, recent: Vec::new() }
    }
}

impl Projects {
    /// Finds the first position from `from` on at which `recent` holds
    /// `path`.
    fn find_recent(recent: &Vec<ProjectInfo>, path: &String, from: usize) -> (at: usize)
        requires
            from <= recent@.len(),
        ensures
            at == position_behind_head(entries(recent@), path@, from as int),
            from <= at <= recent@.len(),
    {
        let mut at: usize = from;
        while at < recent.len()
            invariant
                from <= at <= recent@.len(),
                position_behind_head(entries(recent@), path@, from as int) == position_behind_head(
                    entries(recent@),
                    path@,
                    at as int,
                ),
            decreases recent@.len() - at,
        {
            if recent[at].path == *path {
                return at;
            }
            at += 1;
        }
        at
    }

    /// Spells out the properties of each circle.
    pub fn spell_out(circles_in: &Vec<TaikoCircle>) -> (objects: Vec<HitObject>)
        ensures
            notes(objects@) == notes_of(circles(circles_in@)),
    {
        let mut objects: Vec<HitObject> = Vec::new();
        let mut i: usize = 0;
        while i < circles_in.len()
            invariant
                i <= circles_in@.len(),
                objects@.len() == i,
                forall|k: int|
                    0 <= k < i ==> (#[trigger] objects@[k].time@ as u32, objects@[k].kat, objects@[k].big)
                        == note_of(circles(circles_in@)[k]),
            decreases circles_in@.len() - i,
        {
            let circle = circles_in[i];
            objects.push(HitObject { time: circle.time, kat: circle.is_kat(), big: circle.is_big() });
            i += 1;
        }
        assert(notes(objects@) =~= notes_of(circles(circles_in@)));
        objects
    }

    /// Records in the list of recent projects that `project` was opened.
    pub fn remember(&mut self, project: &Project)
        ensures
            entries(final(self).recent@) == opened(
                entries(old(self).recent@),
                project.path@,
                project.name@,
            ),
            final(self).current == old(self).current,
    {
        let ghost before = entries(self.recent@);
        if self.recent.len() > 1 {
            let found = Self::find_recent(&self.recent, &project.path, 1);
            if found < self.recent.len() {
                let later = self.recent.remove(found);
                let head = self.recent.remove(0);
                self.recent.insert(0, later);
                self.recent.insert(found, head);
                assert(entries(self.recent@) =~= before.update(0, before[found as int]).update(
                    found as int,
                    before[0],
                ));
                return ;
            }
        } else if self.recent.len() == 1 && self.recent[0].path == project.path {
            return ;
        }
        self.recent.insert(
            0,
            ProjectInfo { path: project.path.clone(), name: project.name.clone() },
        );
        assert(entries(self.recent@) =~= seq![(project.path@, project.name@)] + before);
    }

    /// Opens the beatmap that was read from `path` as `data`: reads it, makes
    /// it the current project under the name that its header gives, and
    /// records it in the list of recent projects. Fails exactly when the
    /// beatmap cannot be read, and then changes nothing.
    pub fn open(&mut self, path: &str, data: &str) -> (opened_map: Result<
        (Beatmap, Vec<HitObject>),
        ParseError,
    >)
        ensures
            match opened_map {
                Ok((beatmap, objects)) => {
                    &&& read(data@).is_some()
                    &&& beatmap.title@ == read(data@).unwrap().title
                    &&& beatmap.artist@ == read(data@).unwrap().artist
                    &&& beatmap.audio@ == read(data@).unwrap().audio
                    &&& beatmap.creator@ == Seq::<char>::empty()
                    &&& notes(objects@) == notes_of(read(data@).unwrap().objects)
                    &&& final(self).current.is_some()
                    &&& final(self).current.unwrap().path@ == path@
                    &&& final(self).current.unwrap().name@ == project_name(
                        beatmap.artist@,
                        beatmap.title@,
                    )
                    &&& entries(final(self).recent@) == opened(
                        entries(old(self).recent@),
                        path@,
                        project_name(beatmap.artist@, beatmap.title@),
                    )
                },
                Err(_) => read(data@).is_none() && *final(self) == *old(self),
            },
    {
        let (beatmap, circles_read) = match parse(data) {
            Ok(parsed) => parsed,
            Err(error) => {
                return Err(error);
            },
        };
        let objects = Self::spell_out(&circles_read);
        let name = beatmap.artist.clone().concat(" - ").concat(beatmap.title.as_str());
        let project = Project::from_path(path, name);
        self.remember(&project);
        self.current = Some(project);
        Ok((beatmap, objects))
    }
}

} // verus!

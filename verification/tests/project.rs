use r3gl::beatmap::parser::osu_taiko::ParseError;
use r3gl::identifier::Identifier;
use r3gl::project::project::Project;
use r3gl::project::project_manager::ProjectInfo;
use r3gl::project::project_manager::ProjectManager;
use r3gl::project::projects::ProjectInfo as ListedInfo;
use r3gl::project::projects::Projects;
use r3gl::screen::Identifier as ScreenIdentifier;
use r3gl::view::menu::MenuView;
use r3gl::view::window::bindings::BindingsWindow;
use r3gl::view::window::settle_visibility;
use r3gl::view::window::startup::StartupWindow;
use r3gl::view::window::timeline::TimelineWindow;
use r3gl::view::window::Window;

fn paths(manager: &ProjectManager) -> Vec<String> {
    manager.recent.iter().map(|info| info.path.clone()).collect()
}

fn manager_with(recent: &[&str]) -> ProjectManager {
    let mut manager = ProjectManager::default();
    for path in recent {
        manager.recent.push(ProjectInfo { path: path.to_string(), name: format!("name of {}", path) });
    }
    manager
}

#[test]
fn project_info_copies_path_and_name() {
    let project = Project::from_path("maps/a.osu", "Artist - Title".to_string());
    let info = project.info();
    assert_eq!(info.path, "maps/a.osu");
    assert_eq!(info.name, "Artist - Title");
    assert_eq!(project.path, "maps/a.osu");
}

#[test]
fn new_manager_has_nothing() {
    let manager = ProjectManager::default();
    assert!(manager.current.is_none());
    assert!(manager.recent.is_empty());
}

#[test]
fn a_new_project_goes_to_the_front() {
    let mut manager = manager_with(&[]);
    manager.remember(&Project::from_path("a", "A".to_string()));
    assert_eq!(paths(&manager), vec!["a"]);
    manager.remember(&Project::from_path("b", "B".to_string()));
    assert_eq!(paths(&manager), vec!["b", "a"]);
    manager.remember(&Project::from_path("c", "C".to_string()));
    assert_eq!(paths(&manager), vec!["c", "b", "a"]);
    assert_eq!(manager.recent[0].name, "C");
}

#[test]
fn a_known_project_changes_place_with_the_head() {
    let mut manager = manager_with(&["a", "b", "c", "d"]);
    manager.remember(&Project::from_path("c", "new name".to_string()));
    assert_eq!(paths(&manager), vec!["c", "b", "a", "d"]);
    assert_eq!(manager.recent[0].name, "name of c");
    manager.remember(&Project::from_path("d", "D".to_string()));
    assert_eq!(paths(&manager), vec!["d", "b", "a", "c"]);
    manager.remember(&Project::from_path("b", "B".to_string()));
    assert_eq!(paths(&manager), vec!["b", "d", "a", "c"]);
}

#[test]
fn the_head_stays_where_it_is() {
    let mut manager = manager_with(&["a", "b", "c"]);
    manager.remember(&Project::from_path("a", "A".to_string()));
    assert_eq!(paths(&manager), vec!["a", "b", "c"]);
    let mut manager = manager_with(&["a"]);
    manager.remember(&Project::from_path("a", "A".to_string()));
    assert_eq!(paths(&manager), vec!["a"]);
}

#[test]
fn the_first_of_two_entries_behind_the_head_is_taken() {
    let mut manager = manager_with(&["a", "b", "c", "b"]);
    manager.remember(&Project::from_path("b", "B".to_string()));
    assert_eq!(paths(&manager), vec!["b", "a", "c", "b"]);
    let mut manager = manager_with(&["a", "b", "a"]);
    manager.remember(&Project::from_path("a", "A".to_string()));
    assert_eq!(paths(&manager), vec!["a", "b", "a"]);
}

#[test]
fn opening_reads_names_and_remembers() {
    let mut manager = manager_with(&["x"]);
    let data = "Title: Song\nArtist: Band\nAudioFilename: s.mp3\n[HitObjects]\n0,0,10,0,4\n";
    let (beatmap, objects) = manager.open("maps/song.osu", data).unwrap();
    assert_eq!(beatmap.title, "Song");
    assert_eq!(beatmap.audio, "s.mp3");
    assert_eq!(objects.len(), 1);
    let current = manager.current.clone().unwrap();
    assert_eq!(current.path, "maps/song.osu");
    assert_eq!(current.name, "Band - Song");
    assert_eq!(paths(&manager), vec!["maps/song.osu", "x"]);
    assert_eq!(manager.recent[0].name, "Band - Song");
}

#[test]
fn opening_a_broken_beatmap_changes_nothing() {
    let mut manager = manager_with(&["x", "y"]);
    manager.current = Some(Project::from_path("x", "X".to_string()));
    let opened = manager.open("maps/bad.osu", "[HitObjects]\n0,0,ten,0,4\n");
    assert_eq!(opened.err(), Some(ParseError::InvalidNumber));
    assert_eq!(manager.current.clone().unwrap().path, "x");
    assert_eq!(paths(&manager), vec!["x", "y"]);
}

fn listed(projects: &Projects) -> Vec<String> {
    projects.recent.iter().map(|info| info.path.clone()).collect()
}

fn projects_with(recent: &[&str]) -> Projects {
    let mut projects = Projects::default();
    for path in recent {
        projects.recent.push(ListedInfo { path: path.to_string(), name: format!("name of {}", path) });
    }
    projects
}

#[test]
fn new_projects_list_has_nothing() {
    let projects = Projects::default();
    assert!(projects.current.is_none());
    assert!(projects.recent.is_empty());
}

#[test]
fn projects_put_a_new_project_in_front() {
    let mut projects = projects_with(&[]);
    projects.remember(&Project::from_path("a", "A".to_string()));
    assert_eq!(listed(&projects), vec!["a"]);
    projects.remember(&Project::from_path("a", "A".to_string()));
    assert_eq!(listed(&projects), vec!["a"]);
    projects.remember(&Project::from_path("b", "B".to_string()));
    assert_eq!(listed(&projects), vec!["b", "a"]);
    assert_eq!(projects.recent[0].name, "B");
}

#[test]
fn projects_swap_a_known_project_with_the_head() {
    let mut projects = projects_with(&["a", "b", "c", "d"]);
    projects.remember(&Project::from_path("c", "new name".to_string()));
    assert_eq!(listed(&projects), vec!["c", "b", "a", "d"]);
    assert_eq!(projects.recent[0].name, "name of c");
}

#[test]
fn projects_list_the_head_again_in_a_longer_list() {
    let mut projects = projects_with(&["a", "b", "c"]);
    projects.remember(&Project::from_path("a", "A".to_string()));
    assert_eq!(listed(&projects), vec!["a", "a", "b", "c"]);
    assert_eq!(projects.recent[0].name, "A");
    let mut manager = manager_with(&["a", "b", "c"]);
    manager.remember(&Project::from_path("a", "A".to_string()));
    assert_eq!(paths(&manager), vec!["a", "b", "c"]);
}

#[test]
fn projects_open_spells_the_notes_out() {
    let mut projects = projects_with(&["x"]);
    let data = "Title: Song\nArtist: Band\n[HitObjects]\n0,0,10,0,0\n0,0,20,0,2\n0,0,30,0,4\n0,0,40,0,12\n";
    let (beatmap, objects) = projects.open("maps/song.osu", data).unwrap();
    assert_eq!(beatmap.title, "Song");
    let notes: Vec<(u32, bool, bool)> =
        objects.iter().map(|o| (o.time.as_ms(), o.kat, o.big)).collect();
    assert_eq!(
        notes,
        vec![(10, false, false), (20, true, false), (30, false, true), (40, true, true)]
    );
    assert_eq!(projects.current.clone().unwrap().name, "Band - Song");
    assert_eq!(listed(&projects), vec!["maps/song.osu", "x"]);
    let failed = projects.open("maps/bad.osu", "[HitObjects]\n0,0,ten,0,4\n");
    assert_eq!(failed.err(), Some(ParseError::InvalidNumber));
    assert_eq!(listed(&projects), vec!["maps/song.osu", "x"]);
    assert_eq!(projects.current.clone().unwrap().path, "maps/song.osu");
}

#[test]
fn identifiers_have_labels() {
    assert_eq!(Identifier::Unset.label(), "");
    assert_eq!(Identifier::Editor.label(), "Editor");
    assert_eq!(Identifier::default(), Identifier::Unset);
}

#[test]
fn menu_view_has_no_state() {
    assert_eq!(MenuView::new(), MenuView {});
}

#[test]
fn startup_window_starts_shown() {
    let mut window = StartupWindow::new();
    assert!(window.get_visible());
    assert_eq!(StartupWindow::title(), "Startup");
    window.set_visible(false);
    assert!(!window.get_visible());
}

#[test]
fn bindings_window_starts_hidden() {
    let mut window = BindingsWindow::new();
    assert!(!window.get_visible());
    assert_eq!(window.get_editing(), None);
    assert_eq!(BindingsWindow::title(), "Bindings");
    window.set_visible(true);
    window.edit(Identifier::Editor, 32);
    assert_eq!(window.get_editing(), Some((Identifier::Editor, 32)));
    assert!(window.get_visible());
}

#[test]
fn timeline_window_notes_the_paused_flag_over_a_drag() {
    let mut window = TimelineWindow::new();
    assert!(window.get_visible());
    assert_eq!(TimelineWindow::title(), "Timeline");
    assert_eq!(window.drag_released(true), Some(false));
    window.drag_started(true);
    assert_eq!(window.drag_released(true), Some(true));
    assert_eq!(window.drag_released(false), None);
    window.drag_started(false);
    assert_eq!(window.drag_released(true), Some(false));
}

#[test]
fn timeline_shows_minutes_seconds_and_milliseconds() {
    assert_eq!(TimelineWindow::clock_face(0), (0, 0, 0));
    assert_eq!(TimelineWindow::clock_face(999), (0, 0, 999));
    assert_eq!(TimelineWindow::clock_face(61_001), (1, 1, 1));
    assert_eq!(TimelineWindow::clock_face(3_599_999), (59, 59, 999));
    assert_eq!(TimelineWindow::clock_face(u32::MAX), (71582, 47, 295));
}

#[test]
fn a_closed_window_stays_closed() {
    let mut window = StartupWindow::new();
    settle_visibility(&mut window, true);
    assert!(window.get_visible());
    settle_visibility(&mut window, false);
    assert!(!window.get_visible());
    settle_visibility(&mut window, true);
    assert!(!window.get_visible());
}

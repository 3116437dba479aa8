//! Paths as text: where a project lives and where the manifests of a
//! service go. Nothing here touches the file system.

use crate::text::{chars_of, joined};
use vstd::prelude::*;

verus! {

/// The path `part` below the directory `base`. An empty `base` stands for
/// the current directory, so that `part` is taken as it is; otherwise one
/// `/` parts the two.
pub open spec fn join_path(base: Seq<char>, part: Seq<char>) -> Seq<char> {
    if base.len() == 0 {
        part
    } else if base.last() == '/' {
        base + part
    } else {
        base + seq!['/'] + part
    }
}

/// The path `part` below the directory `base`.
pub fn concat_string_path(base: &str, part: &str) -> (r: String)
    ensures
        r@ == join_path(base@, part@),
{
    let chars: Vec<char> = chars_of(base);
    let n: usize = chars.len();
    if n == 0 {
        part.to_owned()
    } else if chars[n - 1] == '/' {
        joined(base, part)
    } else {
        proof {
            reveal_strlit("/");
            assert("/"@ =~= seq!['/']);
        }
        let with_separator: String = joined(base, "/");
        joined(with_separator.as_str(), part)
    }
}

/// Whether a path starts at the root of the file system.
pub open spec fn is_absolute(path: Seq<char>) -> bool {
    path.len() > 0 && path[0] == '/'
}

/// The path that `base` becomes when `part` is pushed onto it: `part` alone
/// where it is absolute, else `part` below `base`.
pub open spec fn pushed_path(base: Seq<char>, part: Seq<char>) -> Seq<char> {
    if is_absolute(part) {
        part
    } else {
        join_path(base, part)
    }
}

/// Pushes `part` onto the path `base`: an absolute `part` takes the place
/// of `base`, any other goes below it.
pub fn push_string_path(base: &str, part: &str) -> (r: String)
    ensures
        r@ == pushed_path(base@, part@),
{
    let chars: Vec<char> = chars_of(part);
    if chars.len() > 0 && chars[0] == '/' {
        part.to_owned()
    } else {
        concat_string_path(base, part)
    }
}

/// The directory in which the manifests of the service `name` go, for a
/// project that lives at `project_root`.
pub fn get_object_path(project_root: &str, name: &str) -> (r: String)
    ensures
        r@ == join_path(project_root@, name@),
{
    concat_string_path(project_root, name)
}

/// The place that was asked for, with `./` standing in for no answer.
pub open spec fn project_base(input: Seq<char>) -> Seq<char> {
    if input.len() == 0 {
        "./"@
    } else {
        input
    }
}

/// The path of a project, as the user gave it.
pub struct ProjectPath {
    pub path: String,
}

impl ProjectPath {
    /// The project path for what the user typed: the current directory where
    /// nothing was typed.
    pub fn new(input: &String) -> (r: Self)
        ensures
            r.path@ == project_base(input@),
    {
        if input.as_str().is_empty() {
            ProjectPath { path: "./".to_owned() }
        } else {
            ProjectPath { path: input.clone() }
        }
    }
}

/// The directory of a named project below the place that the user gave.
pub struct ConfigHelper {
    pub path: String,
}

impl ConfigHelper {
    /// The directory `project_name` below `input`, or below the current
    /// directory where `input` is empty. A `project_name` that is an
    /// absolute path is the directory by itself, whatever `input` is.
    pub fn new(input: &str, project_name: &str) -> (r: Self)
        ensures
            r.path@ == pushed_path(project_base(input@), project_name@),
            is_absolute(project_name@) ==> r.path@ == project_name@,
            !is_absolute(project_name@) ==> r.path@ == join_path(
                project_base(input@),
                project_name@,
            ),
    {
        let base: ProjectPath = ProjectPath::new(&input.to_owned());
        ConfigHelper { path: push_string_path(base.path.as_str(), project_name) }
    }
}

/// A project that the configuration knows: its name and where it lives.
#[derive(Clone, Debug, PartialEq, Eq)]
pub struct Project {
    pub name: String,
    pub path: String,
}

/// What a [`Project`] holds, as text.
pub ghost struct ProjectView {
    pub name: Seq<char>,
    pub path: Seq<char>,
}

impl View for Project {
    type V = ProjectView;

    open spec fn view(&self) -> ProjectView {
        ProjectView { name: self.name@, path: self.path@ }
    }
}

/// The projects of a configuration, and the name of the current one.
#[derive(Clone, Debug, PartialEq, Eq)]
pub struct ProjectList {
    pub current: String,
    pub projects: Vec<Project>,
}

/// The views of a sequence of projects.
pub open spec fn project_views(projects: Seq<Project>) -> Seq<ProjectView> {
    Seq::new(projects.len(), |i: int| projects[i]@)
}

/// The path of the last project of `projects` that is named `current`,
/// empty where none is.
pub open spec fn current_path(current: Seq<char>, projects: Seq<ProjectView>) -> Seq<char>
    decreases projects.len(),
{
    if projects.len() == 0 {
        Seq::<char>::empty()
    } else if projects.last().name == current {
        projects.last().path
    } else {
        current_path(current, projects.drop_last())
    }
}

/// Where the current project lives: the path of the last project that has
/// the current name. `None` where no project has it, and where that path is
/// empty.
pub fn get_current_project_path(config: &ProjectList) -> (r: Option<String>)
    ensures
        r matches Some(p) ==> p@ == current_path(config.current@, project_views(config.projects@))
            && p@.len() > 0,
        r is None ==> current_path(config.current@, project_views(config.projects@)).len() == 0,
{
    let projects: &Vec<Project> = &config.projects;
    let ghost views = project_views(projects@);
    let mut i: usize = projects.len();
    assert(views.take(i as int) =~= views);
    while i > 0
        invariant
            i <= projects.len(),
            projects == &config.projects,
            views == project_views(projects@),
            current_path(config.current@, views) == current_path(
                config.current@,
                views.take(i as int),
            ),
        decreases i,
    {
        assert(views.take(i as int).drop_last() =~= views.take(i - 1));
        assert(views.take(i as int).last() == views[i - 1]);
        let project: &Project = &projects[i - 1];
        if project.name == config.current {
            if project.path.as_str().is_empty() {
                return None;
            }
            return Some(project.path.clone());
        }
        i = i - 1;
    }
    assert(views.take(0).len() == 0);
    None
}

} // verus!

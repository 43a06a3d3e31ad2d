use vstd::prelude::*;

pub mod auth_commands;
pub mod config_commands;
pub mod list_commands;
pub mod project_commands;
pub mod section_commands;
pub mod shell_commands;
pub mod task_commands;
pub mod test_commands;

use crate::errors::{Error, ErrorKind};
use crate::lists::Flag;
use crate::projects::Project;
use crate::tasks::priority::{self, Priority};

use auth_commands::AuthCommands;
use config_commands::ConfigCommands;
use list_commands::ListCommands;
use project_commands::ProjectCommands;
use section_commands::SectionCommands;
use shell_commands::ShellCommands;
use task_commands::TaskCommands;
use test_commands::TestCommands;

verus! {

/// The parsed command line: global switches and the chosen command.
#[derive(Debug)]
pub struct Cli {
    /// Display additional debug info while processing.
    pub verbose: bool,
    /// Absolute path of the configuration file, when overridden.
    pub config: Option<String>,
    /// Seconds to wait for a response from the remote service.
    pub timeout: Option<u64>,
    pub command: Commands,
}

/// Every command the client offers, one subcommand family each.
#[derive(Debug)]
pub enum Commands {
    /// Commands that change projects.
    Project(ProjectCommands),
    /// Commands that change sections.
    Section(SectionCommands),
    /// Commands for individual tasks.
    Task(TaskCommands),
    /// Commands for multiple tasks.
    List(ListCommands),
    /// Commands around configuration and the app.
    Config(ConfigCommands),
    /// Commands for logging in with OAuth.
    Auth(AuthCommands),
    /// Commands for generating shell completions.
    Shell(ShellCommands),
    /// Commands for manually exercising the remote endpoints.
    Test(TestCommands),
}

/// The two kinds of selector a user can pick when neither flag was
/// given.
#[derive(Clone, Copy, Debug, PartialEq, Eq, Structural)]
pub enum FlagOptions {
    Project,
    Filter,
}

impl FlagOptions {
    /// The label shown for this option.
    pub fn label(&self) -> (r: &'static str)
        ensures
            *self == FlagOptions::Project ==> r@ == "Project"@,
            *self == FlagOptions::Filter ==> r@ == "Filter"@,
    {
        match self {
            FlagOptions::Project => "Project",
            FlagOptions::Filter => "Filter",
        }
    }
}

/// A prompt the caller must put to the user before resolution can go
/// on.
#[derive(Clone, Copy, Debug, PartialEq, Eq, Structural)]
pub enum SelectorPrompt {
    /// Ask whether to select by project or by filter.
    ChooseKind,
    /// Ask which remembered project, by its position in the list.
    PickProject,
    /// Ask for a filter expression.
    EnterFilter,
}

/// The user's answer to a selector prompt.
#[derive(Debug)]
pub enum PromptReply {
    Kind(FlagOptions),
    ProjectIndex(usize),
    Text(String),
}

/// One step of selector resolution: either a selector, a prompt that
/// must be answered first, or a definite failure.
#[derive(Debug)]
pub enum SelectorStep {
    Resolved(Flag),
    Ask(SelectorPrompt),
    Failed(Error),
}

/// Whether some remembered project carries this name.
pub open spec fn has_project(projects: Seq<Project>, name: Seq<char>) -> bool {
    exists|i: int| 0 <= i < projects.len() && (#[trigger] projects[i].name@) == name
}

/// What a by-name project lookup must come to: the first project of
/// that name, a lookup error when the name is unknown, and an
/// unresolvable-selector error when no projects are remembered at all.
pub open spec fn project_lookup_step(
    r: SelectorStep,
    projects: Seq<Project>,
    name: Seq<char>,
) -> bool {
    if projects.len() == 0 {
        r matches SelectorStep::Failed(e) && e.kind == ErrorKind::SelectorUnresolvable
    } else if has_project(projects, name) {
        exists|i: int|
            {
                &&& 0 <= i < projects.len()
                &&& (#[trigger] projects[i].name@) == name
                &&& forall|j: int| 0 <= j < i ==> projects[j].name@ != name
                &&& r matches SelectorStep::Resolved(f) && f matches Flag::Project(p) && p
                    == projects[i]
            }
    } else {
        r matches SelectorStep::Failed(e) && e.kind == ErrorKind::ProjectNotFound
    }
}

/// The position of the first remembered project with this name.
pub fn find_project(projects: &Vec<Project>, name: &String) -> (r: Option<usize>)
    ensures
        match r {
            Some(i) => {
                &&& i < projects@.len()
                &&& projects@[i as int].name@ == name@
                &&& forall|j: int| 0 <= j < i ==> projects@[j].name@ != name@
            },
            None => forall|j: int| 0 <= j < projects@.len() ==> projects@[j].name@ != name@,
        },
{
    let mut i: usize = 0;
    while i < projects.len()
        invariant
            i <= projects@.len(),
            forall|j: int| 0 <= j < i ==> projects@[j].name@ != name@,
        decreases projects@.len() - i,
    {
        if projects[i].name.eq(name) {
            return Some(i);
        }
        i = i + 1;
    }
    None
}

/// Resolves the project half of a selector: a given name is looked up
/// verbatim; with no name, a single remembered project is
/// auto-selected and several call for a pick.
pub fn fetch_project(project_name: Option<&String>, projects: &Vec<Project>) -> (r: SelectorStep)
    ensures
        match project_name {
            Some(n) => project_lookup_step(r, projects@, n@),
            None => {
                if projects@.len() == 0 {
                    r matches SelectorStep::Failed(e) && e.kind == ErrorKind::SelectorUnresolvable
                } else if projects@.len() == 1 {
                    r matches SelectorStep::Resolved(f) && f matches Flag::Project(p) && p
                        == projects@[0]
                } else {
                    r == SelectorStep::Ask(SelectorPrompt::PickProject)
                }
            },
        },
{
    if projects.len() == 0 {
        return SelectorStep::Failed(
            Error::new(
                ErrorKind::SelectorUnresolvable,
                "fetch_project",
                "No projects in config. Add projects with the project import command.",
            ),
        );
    }
    match project_name {
        Some(name) => {
            match find_project(projects, name) {
                Some(i) => {
                    let step = SelectorStep::Resolved(Flag::Project(projects[i].clone()));
                    proof {
                        let w: int = i as int;
                        assert({
                            &&& 0 <= w < projects@.len()
                            &&& projects@[w].name@ == name@
                            &&& forall|j: int| 0 <= j < w ==> projects@[j].name@ != name@
                            &&& step matches SelectorStep::Resolved(f) && f matches Flag::Project(
                                p,
                            ) && p == projects@[w]
                        });
                        assert(has_project(projects@, name@));
                    }
                    step
                },
                None => SelectorStep::Failed(
                    Error::new(
                        ErrorKind::ProjectNotFound,
                        "fetch_project",
                        "Could not find project in config",
                    ),
                ),
            }
        },
        None => {
            if projects.len() == 1 {
                SelectorStep::Resolved(Flag::Project(projects[0].clone()))
            } else {
                SelectorStep::Ask(SelectorPrompt::PickProject)
            }
        },
    }
}

/// Resolves the filter half of a selector: given text is used
/// verbatim, otherwise a supplied answer stands in; empty text in
/// either place is unresolvable.
pub fn fetch_filter(filter: Option<&String>, reply: Option<String>) -> (r: Result<Flag, Error>)
    ensures
        match filter {
            Some(f) => {
                if f@.len() > 0 {
                    r matches Ok(Flag::Filter(s)) && s@ == f@
                } else {
                    r matches Err(e) && e.kind == ErrorKind::SelectorUnresolvable
                }
            },
            None => match reply {
                Some(t) => {
                    if t@.len() > 0 {
                        r matches Ok(Flag::Filter(s)) && s@ == t@
                    } else {
                        r matches Err(e) && e.kind == ErrorKind::SelectorUnresolvable
                    }
                },
                None => r matches Err(e) && e.kind == ErrorKind::SelectorUnresolvable,
            },
        },
{
    let text: String = match filter {
        Some(f) => f.clone(),
        None => match reply {
            Some(t) => t,
            None => {
                return Err(
                    Error::new(
                        ErrorKind::SelectorUnresolvable,
                        "fetch_filter",
                        "No filter expression was supplied",
                    ),
                );
            },
        },
    };
    if text.as_str().unicode_len() == 0 {
        return Err(
            Error::new(ErrorKind::SelectorUnresolvable, "fetch_filter", "Filter text is empty"),
        );
    }
    Ok(Flag::Filter(text))
}

/// A flag value when one was given, else the supplied answer to the
/// prompt; with neither, an unresolvable error.
pub fn fetch_string(maybe_string: Option<&String>, reply: Option<String>) -> (r: Result<
    String,
    Error,
>)
    ensures
        match maybe_string {
            Some(s) => r matches Ok(t) && t@ == s@,
            None => match reply {
                Some(a) => r matches Ok(t) && t@ == a@,
                None => r matches Err(e) && e.kind == ErrorKind::SelectorUnresolvable,
            },
        },
{
    match maybe_string {
        Some(s) => Ok(s.clone()),
        None => match reply {
            Some(a) => Ok(a),
            None => Err(
                Error::new(ErrorKind::SelectorUnresolvable, "fetch_string", "No text was supplied"),
            ),
        },
    }
}

/// A priority from the command-line ordinal when it is valid, else
/// from the supplied answer to a pick over the four priorities.
pub fn fetch_priority(priority: &Option<u8>, reply: Option<usize>) -> (r: Result<Priority, Error>)
    ensures
        match priority::spec_from_integer(*priority) {
            Some(p) => r == Ok::<Priority, Error>(p),
            None => match reply {
                Some(i) => {
                    if i < 4 {
                        r == Ok::<Priority, Error>(
                            seq![
                                Priority::Unset,
                                Priority::Low,
                                Priority::Medium,
                                Priority::High,
                            ][i as int],
                        )
                    } else {
                        r matches Err(e) && e.kind == ErrorKind::SelectorUnresolvable
                    }
                },
                None => r matches Err(e) && e.kind == ErrorKind::SelectorUnresolvable,
            },
        },
{
    match priority::from_integer(priority) {
        Some(p) => Ok(p),
        None => {
            let options = [Priority::Unset, Priority::Low, Priority::Medium, Priority::High];
            match reply {
                Some(i) => {
                    if i < 4 {
                        Ok(options[i])
                    } else {
                        Err(
                            Error::new(
                                ErrorKind::SelectorUnresolvable,
                                "fetch_priority",
                                "Selection is out of range",
                            ),
                        )
                    }
                },
                None => Err(
                    Error::new(
                        ErrorKind::SelectorUnresolvable,
                        "fetch_priority",
                        "No selection was supplied",
                    ),
                ),
            }
        },
    }
}

/// Resolves a selector from the two command-line flags: both given is
/// a conflict, one given is used verbatim, neither given auto-selects
/// a sole remembered project and otherwise calls for a prompt.
pub fn resolve(project: Option<String>, filter: Option<String>, projects: &Vec<Project>) -> (r:
    SelectorStep)
    ensures
        match (project, filter) {
            (Some(p), Some(f)) => r matches SelectorStep::Failed(e) && e.kind
                == ErrorKind::SelectorConflict,
            (Some(p), None) => project_lookup_step(r, projects@, p@),
            (None, Some(f)) => {
                if f@.len() > 0 {
                    r matches SelectorStep::Resolved(fl) && fl matches Flag::Filter(s) && s@ == f@
                } else {
                    r matches SelectorStep::Failed(e) && e.kind == ErrorKind::SelectorUnresolvable
                }
            },
            (None, None) => {
                if projects@.len() == 1 {
                    r matches SelectorStep::Resolved(fl) && fl matches Flag::Project(pr) && pr
                        == projects@[0]
                } else {
                    r == SelectorStep::Ask(SelectorPrompt::ChooseKind)
                }
            },
        },
{
    match (&project, &filter) {
        (Some(_), Some(_)) => SelectorStep::Failed(
            Error::new(ErrorKind::SelectorConflict, "resolve", "Must select project OR filter"),
        ),
        (Some(p), None) => fetch_project(Some(p), projects),
        (None, Some(f)) => match fetch_filter(Some(f), None) {
            Ok(flag) => SelectorStep::Resolved(flag),
            Err(e) => SelectorStep::Failed(e),
        },
        (None, None) => {
            if projects.len() == 1 {
                SelectorStep::Resolved(Flag::Project(projects[0].clone()))
            } else {
                SelectorStep::Ask(SelectorPrompt::ChooseKind)
            }
        },
    }
}

/// Carries resolution on after a prompt was answered: a kind picks the
/// matching half, an index picks a remembered project, text becomes a
/// filter.
pub fn resolve_reply(reply: PromptReply, projects: &Vec<Project>) -> (r: SelectorStep)
    ensures
        match reply {
            PromptReply::Kind(k) => {
                if k == FlagOptions::Filter {
                    r == SelectorStep::Ask(SelectorPrompt::EnterFilter)
                } else {
                    if projects@.len() == 0 {
                        r matches SelectorStep::Failed(e) && e.kind
                            == ErrorKind::SelectorUnresolvable
                    } else if projects@.len() == 1 {
                        r matches SelectorStep::Resolved(f) && f matches Flag::Project(p) && p
                            == projects@[0]
                    } else {
                        r == SelectorStep::Ask(SelectorPrompt::PickProject)
                    }
                }
            },
            PromptReply::ProjectIndex(i) => {
                if i < projects@.len() {
                    r matches SelectorStep::Resolved(f) && f matches Flag::Project(p) && p
                        == projects@[i as int]
                } else {
                    r matches SelectorStep::Failed(e) && e.kind == ErrorKind::SelectorUnresolvable
                }
            },
            PromptReply::Text(t) => {
                if t@.len() > 0 {
                    r matches SelectorStep::Resolved(fl) && fl matches Flag::Filter(s) && s@ == t@
                } else {
                    r matches SelectorStep::Failed(e) && e.kind == ErrorKind::SelectorUnresolvable
                }
            },
        },
{
    match reply {
        PromptReply::Kind(FlagOptions::Project) => fetch_project(None, projects),
        PromptReply::Kind(FlagOptions::Filter) => SelectorStep::Ask(SelectorPrompt::EnterFilter),
        PromptReply::ProjectIndex(i) => {
            if i < projects.len() {
                SelectorStep::Resolved(Flag::Project(projects[i].clone()))
            } else {
                SelectorStep::Failed(
                    Error::new(
                        ErrorKind::SelectorUnresolvable,
                        "resolve",
                        "Selection is out of range",
                    ),
                )
            }
        },
        PromptReply::Text(t) => match fetch_filter(None, Some(t)) {
            Ok(flag) => SelectorStep::Resolved(flag),
            Err(e) => SelectorStep::Failed(e),
        },
    }
}

} // verus!

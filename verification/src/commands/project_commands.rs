use vstd::prelude::*;

use crate::errors::{Error, ErrorKind};

verus! {

/// Commands that change projects.
#[derive(Debug)]
pub enum ProjectCommands {
    /// Create a new project remotely and add it to the config.
    Create(Create),
    /// List all of the projects in the config.
    List(List),
    /// Remove a project from the config (not remotely).
    Remove(Remove),
    /// Remove a project from the remote service.
    Delete(Delete),
    /// Rename a project in the config (not remotely).
    Rename(Rename),
    /// Get projects from the remote service and add them to the config.
    Import(Import),
    /// Empty a project by moving its tasks into other projects.
    Empty(Empty),
}

/// Arguments of the project listing; there are none.
#[derive(Debug)]
pub struct List {}

/// Arguments of project creation.
#[derive(Debug)]
pub struct Create {
    /// Project name.
    pub name: Option<String>,
    /// Project description.
    pub description: Option<String>,
    /// Whether the project is marked as favorite.
    pub is_favorite: bool,
}

/// Arguments of the project import.
#[derive(Debug)]
pub struct Import {
    /// Add all projects to the config that are not there already.
    pub auto: bool,
}

/// Arguments of project removal from the config.
#[derive(Debug)]
pub struct Remove {
    /// Remove all projects from the config that are gone remotely.
    pub auto: bool,
    /// Keep repeating the prompt to remove projects.
    pub repeat: bool,
    /// Remove all projects from the config.
    pub all: bool,
    /// Project to remove.
    pub project: Option<String>,
}

/// Arguments of remote project deletion.
#[derive(Debug)]
pub struct Delete {
    /// Keep repeating the prompt to delete projects.
    pub repeat: bool,
    /// Project to delete.
    pub project: Option<String>,
}

/// Arguments of the project rename.
#[derive(Debug)]
pub struct Rename {
    /// Project to rename.
    pub project: Option<String>,
}

/// Arguments of the project emptying.
#[derive(Debug)]
pub struct Empty {
    /// Project to empty.
    pub project: Option<String>,
}

/// How a removal proceeds, decided by its two mode flags.
#[derive(Clone, Copy, Debug, PartialEq, Eq, Structural)]
pub enum RemoveMode {
    /// Remove every project from the config.
    All,
    /// Remove the projects that are gone remotely.
    Auto,
    /// Prompt for one project (repeatedly, if asked).
    Prompt,
}

/// Decides the removal mode: the two mode flags exclude one another,
/// and neither set means prompting.
pub fn remove_mode(all: bool, auto: bool) -> (r: Result<RemoveMode, Error>)
    ensures
        match (all, auto) {
            (true, false) => r == Ok::<RemoveMode, Error>(RemoveMode::All),
            (false, true) => r == Ok::<RemoveMode, Error>(RemoveMode::Auto),
            (false, false) => r == Ok::<RemoveMode, Error>(RemoveMode::Prompt),
            (true, true) => r matches Err(e) && e.kind == ErrorKind::SelectorConflict,
        },
{
    match (all, auto) {
        (true, false) => Ok(RemoveMode::All),
        (false, true) => Ok(RemoveMode::Auto),
        (false, false) => Ok(RemoveMode::Prompt),
        (true, true) => Err(
            Error::new(ErrorKind::SelectorConflict, "project_remove", "Incorrect flags provided"),
        ),
    }
}

} // verus!

use vstd::prelude::*;

verus! {

/// A project remembered in the local configuration: the remote
/// identifier and the display name.
#[derive(Debug, PartialEq)]
pub struct Project {
    pub id: String,
    pub name: String,
}

impl Clone for Project {
    fn clone(&self) -> (r: Self)
        ensures
            r == *self,
    {
        Project { id: self.id.clone(), name: self.name.clone() }
    }
}

/// Which tasks of a project a scheduling pass visits.
#[derive(Clone, Copy, Debug, PartialEq, Eq, Structural)]
pub enum TaskFilter {
    /// Only tasks whose due day has passed.
    Overdue,
    /// Only tasks with no due date at all.
    Unscheduled,
}

} // verus!

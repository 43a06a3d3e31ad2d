use vstd::prelude::*;
use vstd::string::StrSliceExecFns;
use vstd::string::View as StrView;

use crate::projects::TaskFilter;
use crate::tasks::SortOrder;

verus! {

/// Commands for multiple tasks.
#[derive(Debug)]
pub enum ListCommands {
    /// View a list of tasks.
    View(View),
    /// Complete a list of tasks one by one in priority order.
    Process(Process),
    /// Give every task a priority.
    Prioritize(Prioritize),
    /// Give every task a date, time, and length.
    Timebox(Timebox),
    /// Iterate through tasks and apply labels from defined choices.
    Label(Label),
    /// Assign dates to all tasks individually.
    Schedule(Schedule),
    /// Assign deadlines to all non-recurring tasks without deadlines.
    Deadline(Deadline),
    /// Create tasks from a text file, one per line; skips empty lines.
    Import(Import),
}

/// Arguments of the view operation.
#[derive(Debug)]
pub struct View {
    /// The project containing the tasks.
    pub project: Option<String>,
    /// The filter containing the tasks.
    pub filter: Option<String>,
    /// How results are sorted; viewing defaults to chronological.
    pub sort: SortOrder,
}

/// Arguments of the process loop.
#[derive(Debug)]
pub struct Process {
    pub project: Option<String>,
    pub filter: Option<String>,
    pub sort: SortOrder,
}

/// Arguments of the timebox pass.
#[derive(Debug)]
pub struct Timebox {
    pub project: Option<String>,
    pub filter: Option<String>,
    pub sort: SortOrder,
}

/// Arguments of the prioritize pass.
#[derive(Debug)]
pub struct Prioritize {
    pub project: Option<String>,
    pub filter: Option<String>,
    pub sort: SortOrder,
}

/// Arguments of the label pass.
#[derive(Debug)]
pub struct Label {
    pub filter: Option<String>,
    pub project: Option<String>,
    /// Labels to select from; fetched remotely when left empty.
    pub label: Vec<String>,
    pub sort: SortOrder,
}

/// Arguments of the scheduling pass.
#[derive(Debug)]
pub struct Schedule {
    pub project: Option<String>,
    pub filter: Option<String>,
    /// Don't re-schedule recurring tasks that are overdue.
    pub skip_recurring: bool,
    /// Only schedule overdue tasks.
    pub overdue: bool,
    pub sort: SortOrder,
}

/// Arguments of the deadline pass.
#[derive(Debug)]
pub struct Deadline {
    pub project: Option<String>,
    pub filter: Option<String>,
    pub sort: SortOrder,
}

/// Arguments of the bulk import.
#[derive(Debug)]
pub struct Import {
    /// The file or directory to look in.
    pub path: Option<String>,
}

/// Which of a project's tasks a scheduling pass visits, from its
/// flags: overdue-only when asked, else the unscheduled ones.
pub fn schedule_task_filter(overdue: bool) -> (r: TaskFilter)
    ensures
        r == (if overdue {
            TaskFilter::Overdue
        } else {
            TaskFilter::Unscheduled
        }),
{
    if overdue {
        TaskFilter::Overdue
    } else {
        TaskFilter::Unscheduled
    }
}

/// Whether a file name carries the markdown suffix.
pub open spec fn ends_with_md(s: Seq<char>) -> bool {
    s.len() >= 3 && s[s.len() - 3] == '.' && s[s.len() - 2] == 'm' && s[s.len() - 1] == 'd'
}

/// Whether a candidate import file is a markdown file, by its name.
pub fn is_md_file(name: &str) -> (r: bool)
    ensures
        r == ends_with_md(name@),
{
    let n = name.unicode_len();
    if n < 3 {
        return false;
    }
    name.get_char(n - 3) == '.' && name.get_char(n - 2) == 'm' && name.get_char(n - 1) == 'd'
}

} // verus!

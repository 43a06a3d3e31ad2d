use vstd::prelude::*;
use vstd::string::StrSliceExecFns;
use vstd::string::View as StrView;

use crate::config::Config;
use crate::strings::{trim_spaces, trimmed};
use crate::tasks::TaskAttribute;

verus! {

/// Commands for individual tasks.
#[derive(Debug)]
pub enum TaskCommands {
    /// Create a new task using natural language.
    QuickAdd(QuickAdd),
    /// Create a new task field by field.
    Create(Create),
    /// Edit an existing task's content.
    Edit(Edit),
    /// Get the next task by priority.
    Next(Next),
    /// Complete the last task fetched with the next command.
    Complete(Complete),
    /// Add a comment to the last task fetched with the next command.
    Comment(Comment),
}

/// Arguments of the quick add.
#[derive(Debug)]
pub struct QuickAdd {
    /// Content for the task; a reminder follows a `!` prefix.
    pub content: Option<Vec<String>>,
}

/// Arguments of field-by-field task creation.
#[derive(Debug)]
pub struct Create {
    /// The project into which the task will be added.
    pub project: Option<String>,
    /// Due date, explicit or in natural language.
    pub due: Option<String>,
    /// Description for the task.
    pub description: String,
    /// Content for the task.
    pub content: Option<String>,
    /// Do not prompt for a section.
    pub no_section: bool,
    /// Priority from 1 (without priority) to 4 (highest).
    pub priority: Option<u8>,
    /// Labels to apply, one flag use per label.
    pub label: Vec<String>,
}

/// Arguments of the task edit.
#[derive(Debug)]
pub struct Edit {
    /// The project containing the task.
    pub project: Option<String>,
    /// The filter containing the task.
    pub filter: Option<String>,
}

/// Arguments of the next-task fetch.
#[derive(Debug)]
pub struct Next {
    /// The project containing the task.
    pub project: Option<String>,
    /// The filter containing the task.
    pub filter: Option<String>,
}

/// Arguments of task completion; the remembered task is used.
#[derive(Debug)]
pub struct Complete {}

/// Arguments of task commenting.
#[derive(Debug)]
pub struct Comment {
    /// Content for the comment.
    pub content: Option<String>,
}

/// Splits quick-add content at the first `!`: what stands before it
/// is the task content, what follows it is a reminder date, both with
/// surrounding whitespace stripped. Without a `!` the content passes
/// through whole.
pub fn split_reminder(content: &str) -> (r: (String, Option<String>))
    ensures
        match r.1 {
            None => (forall|i: int| 0 <= i < content@.len() ==> content@[i] != '!') && r.0@
                == content@,
            Some(rem) => exists|i: int|
                {
                    &&& 0 <= i < content@.len()
                    &&& (#[trigger] content@[i]) == '!'
                    &&& forall|j: int| 0 <= j < i ==> content@[j] != '!'
                    &&& r.0@ == trimmed(content@.take(i))
                    &&& rem@ == trimmed(content@.skip(i + 1))
                },
        },
{
    let n = content.unicode_len();
    let mut i: usize = 0;
    while i < n && content.get_char(i) != '!'
        invariant
            i <= n,
            n == content@.len(),
            forall|j: int| 0 <= j < i ==> content@[j] != '!',
        decreases n - i,
    {
        i = i + 1;
    }
    if i == n {
        (content.to_owned(), None)
    } else {
        let before = trim_spaces(content.substring_char(0, i).to_owned().as_str());
        let after = trim_spaces(content.substring_char(i + 1, n).to_owned().as_str());
        proof {
            let w: int = i as int;
            assert(content@.subrange(0, w) =~= content@.take(w));
            assert(content@.subrange(w + 1, n as int) =~= content@.skip(w + 1));
            assert({
                &&& 0 <= w < content@.len()
                &&& content@[w] == '!'
                &&& forall|j: int| 0 <= j < w ==> content@[j] != '!'
                &&& before@ == trimmed(content@.take(w))
                &&& after@ == trimmed(content@.skip(w + 1))
            });
        }
        (before, Some(after))
    }
}

/// Whether a creation was invoked with no field flags at all, in
/// which case the fields to fill are picked interactively.
pub fn no_flags_used(args: &Create) -> (r: bool)
    ensures
        r == (args.project is None && args.due is None && args.description@.len() == 0
            && args.content is None && args.priority is None && args.label@.len() == 0),
{
    args.project.is_none() && args.due.is_none() && args.description.as_str().is_empty()
        && args.content.is_none() && args.priority.is_none() && args.label.is_empty()
}

/// Whether an attribute is among the ones the user chose to fill in.
pub fn attribute_selected(selections: &Vec<TaskAttribute>, attribute: TaskAttribute) -> (r: bool)
    ensures
        r == selections@.contains(attribute),
{
    let mut i: usize = 0;
    while i < selections.len()
        invariant
            i <= selections@.len(),
            forall|j: int| 0 <= j < i ==> selections@[j] != attribute,
        decreases selections@.len() - i,
    {
        if selections[i] == attribute {
            return true;
        }
        i = i + 1;
    }
    false
}

/// Whether the user does not want to use sections, by flag or by
/// configuration.
pub fn is_no_sections(args: &Create, config: &Config) -> (r: bool)
    ensures
        r == (args.no_section || config.no_sections == Some(true)),
{
    args.no_section || match config.no_sections {
        Some(b) => b,
        None => false,
    }
}

} // verus!

use vstd::prelude::*;

use crate::errors::{Error, ErrorKind};
use crate::projects::Project;
use crate::tasks::Task;

verus! {

/// The command-line switches that travel with the configuration.
#[derive(Clone, Copy, Debug)]
pub struct ConfigArgs {
    pub verbose: bool,
    pub timeout: Option<u64>,
}

/// The local configuration the core consumes: credentials, the
/// remembered projects, the resumable task pointer, preferences, and
/// the deterministic stand-ins for interactive prompts. The
/// surrounding program loads it from disk and writes it back after
/// `remember`.
#[derive(Debug)]
pub struct Config {
    pub token: Option<String>,
    pub projects: Vec<Project>,
    /// The resumable pointer: the most recently surfaced task.
    pub next_task: Option<Task>,
    pub verbose: Option<bool>,
    pub args: ConfigArgs,
    /// Stand-in answer for selection prompts, by option index.
    pub mock_select: Option<usize>,
    /// Stand-in answer for free-text prompts.
    pub mock_string: Option<String>,
    pub bell_on_success: bool,
    pub bell_on_failure: bool,
    pub no_sections: Option<bool>,
    pub natural_language_only: Option<bool>,
}

/// What the pointer holds after one more task is remembered: always
/// the new task, whatever was held before.
pub open spec fn remembered_after(previous: Option<Task>, task: Task) -> Option<Task> {
    Some(task)
}

impl Config {
    /// A fresh configuration: nothing remembered, nothing mocked, all
    /// preferences at their defaults.
    pub fn new() -> (c: Config)
        ensures
            c.token is None,
            c.projects@.len() == 0,
            c.next_task is None,
            c.verbose is None,
            c.args.verbose == false,
            c.args.timeout is None,
            c.mock_select is None,
            c.mock_string is None,
            c.bell_on_success == false,
            c.bell_on_failure == false,
            c.no_sections is None,
            c.natural_language_only is None,
    {
        Config {
            token: None,
            projects: Vec::new(),
            next_task: None,
            verbose: None,
            args: ConfigArgs { verbose: false, timeout: None },
            mock_select: None,
            mock_string: None,
            bell_on_success: false,
            bell_on_failure: false,
            no_sections: None,
            natural_language_only: None,
        }
    }

    /// Overwrites the resumable pointer with the task just surfaced.
    /// Nothing else of the configuration moves.
    pub fn remember(&mut self, task: Task)
        ensures
            final (self).next_task == remembered_after(old(self).next_task, task),
            *final (self) == (Config { next_task: Some(task), ..*old(self) }),
    {
        self.next_task = Some(task);
    }

    /// Reads the resumable pointer without touching it. When nothing
    /// was ever remembered it fails with `NoCurrentTask`, telling the
    /// caller a "next" operation must run first.
    pub fn recall(&self) -> (r: Result<&Task, Error>)
        ensures
            match self.next_task {
                Some(t) => r matches Ok(rt) && *rt == t,
                None => r matches Err(e) && e.kind == ErrorKind::NoCurrentTask,
            },
    {
        match &self.next_task {
            Some(t) => Ok(t),
            None => Err(
                Error::new(
                    ErrorKind::NoCurrentTask,
                    "config",
                    "No current task. A task must first be surfaced with a 'next' operation.",
                ),
            ),
        }
    }
}

/// Law: the pointer is last-write-wins. Remembering A and then B
/// leaves exactly B for recall, whatever was held before.
pub proof fn lemma_remember_last_write_wins(initial: Option<Task>, a: Task, b: Task)
    ensures
        remembered_after(remembered_after(initial, a), b) == Some(b),
{
}

} // verus!

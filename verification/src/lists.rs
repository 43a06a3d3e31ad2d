use vstd::prelude::*;
use vstd::string::StringExecFns;

use crate::projects::{Project, TaskFilter};
use crate::sorting::sort_spec;
use crate::strings::{dec_digits, format_count};
use crate::tasks::{Task, SortOrder};
use crate::tasks::priority::Priority;

verus! {

/// The selector a list operation runs over: a remembered project, or
/// an ad-hoc filter expression sent verbatim to the remote service.
#[derive(Debug, PartialEq)]
pub enum Flag {
    Project(Project),
    Filter(String),
}

/// Whether a task repeats.
pub open spec fn is_recurring(t: Task) -> bool {
    match t.due {
        Some(d) => d.is_recurring,
        None => false,
    }
}

/// Whether a task's due day lies strictly in the past.
pub open spec fn is_overdue(t: Task, today: u32) -> bool {
    match t.due {
        Some(d) => d.day < today,
        None => false,
    }
}

/// Which subset of a sorted collection a list operation visits.
#[derive(Clone, Copy, Debug, PartialEq, Eq, Structural)]
pub enum EligibilityPolicy {
    /// Every task: viewing, prioritizing and labelling hold nothing back.
    All,
    /// Tasks due today or earlier, or undated: the process loop.
    DueOrUndated,
    /// Overdue or unscheduled tasks, optionally sparing recurring ones:
    /// the scheduling pass.
    Schedule { filter: TaskFilter, skip_recurring: bool },
    /// Non-recurring tasks that lack a deadline: the deadline pass.
    MissingDeadline,
    /// Tasks without a duration: the timebox pass.
    MissingDuration,
}

/// Whether one task is visited under a policy.
pub open spec fn spec_eligible(t: Task, policy: EligibilityPolicy, today: u32) -> bool {
    match policy {
        EligibilityPolicy::All => true,
        EligibilityPolicy::DueOrUndated => match t.due {
            Some(d) => d.day <= today,
            None => true,
        },
        EligibilityPolicy::Schedule { filter, skip_recurring } => (match filter {
            TaskFilter::Overdue => is_overdue(t, today),
            TaskFilter::Unscheduled => t.due is None,
        }) && !(skip_recurring && is_recurring(t)),
        EligibilityPolicy::MissingDeadline => !is_recurring(t) && t.deadline is None,
        EligibilityPolicy::MissingDuration => t.duration is None,
    }
}

/// Decides whether a task is visited under a policy.
pub fn eligible(t: &Task, policy: EligibilityPolicy, today: u32) -> (r: bool)
    ensures
        r == spec_eligible(*t, policy, today),
{
    match policy {
        EligibilityPolicy::All => true,
        EligibilityPolicy::DueOrUndated => match &t.due {
            Some(d) => d.day <= today,
            None => true,
        },
        EligibilityPolicy::Schedule { filter, skip_recurring } => {
            let wanted = match filter {
                TaskFilter::Overdue => match &t.due {
                    Some(d) => d.day < today,
                    None => false,
                },
                TaskFilter::Unscheduled => t.due.is_none(),
            };
            let recurring = match &t.due {
                Some(d) => d.is_recurring,
                None => false,
            };
            wanted && !(skip_recurring && recurring)
        },
        EligibilityPolicy::MissingDeadline => {
            let recurring = match &t.due {
                Some(d) => d.is_recurring,
                None => false,
            };
            !recurring && t.deadline.is_none()
        },
        EligibilityPolicy::MissingDuration => t.duration.is_none(),
    }
}

/// Keeps the tasks a policy visits, in their incoming order.
pub fn filter_tasks(tasks: Vec<Task>, policy: EligibilityPolicy, today: u32) -> (r: Vec<Task>)
    ensures
        r@ == tasks@.filter(|t: Task| spec_eligible(t, policy, today)),
{
    let ghost pred = |t: Task| spec_eligible(t, policy, today);
    let ghost orig: Seq<Task> = tasks@;
    let mut input = tasks;
    let mut out: Vec<Task> = Vec::new();
    while input.len() > 0
        invariant
            input@ =~= orig.skip(orig.len() - input@.len()),
            out@ == orig.take(orig.len() - input@.len()).filter(pred),
            input@.len() <= orig.len(),
            pred == (|t: Task| spec_eligible(t, policy, today)),
        decreases input@.len(),
    {
        let ghost p: int = orig.len() - input@.len();
        let t = input.remove(0);
        proof {
            assert(t == orig[p]);
            assert(input@ =~= orig.skip(p + 1));
            assert(orig.take(p + 1).drop_last() =~= orig.take(p));
            assert(orig.take(p + 1).last() == orig[p]);
        }
        if eligible(&t, policy, today) {
            out.push(t);
        }
        proof {
            reveal_with_fuel(Seq::<_>::filter, 2);
            let s1 = orig.take(p + 1);
            assert(s1.drop_last() == orig.take(p));
            if pred(t) {
                assert(s1.filter(pred) =~= orig.take(p).filter(pred).push(t));
            } else {
                assert(s1.filter(pred) =~= orig.take(p).filter(pred));
            }
        }
    }
    proof {
        assert(orig.take(orig.len() as int) =~= orig);
    }
    out
}

/// Sorts a fetched collection and keeps the tasks the operation
/// visits: the order is the sort engine's, the subset the policy's.
pub fn prepare_tasks(
    tasks: Vec<Task>,
    order: SortOrder,
    policy: EligibilityPolicy,
    today: u32,
) -> (r: Vec<Task>)
    ensures
        r@ == sort_spec(tasks@, order, today).filter(
            |t: Task| spec_eligible(t, policy, today),
        ),
{
    let sorted = crate::sorting::sort(tasks, order, today);
    filter_tasks(sorted, policy, today)
}

/// The list operations that drive the per-task loop. They differ only
/// in which attribute is collected and in which subset of the sorted
/// collection is eligible.
#[derive(Clone, Copy, Debug, PartialEq, Eq, Structural)]
pub enum ListOperation {
    /// Confirm completion task by task.
    Process,
    /// Give every task a priority.
    Prioritize,
    /// Give every task without a duration one.
    Timebox,
    /// Apply labels from given choices.
    Label,
    /// Assign dates, optionally to overdue tasks only, optionally
    /// sparing recurring ones.
    Schedule { skip_recurring: bool, overdue: bool },
    /// Assign deadlines to non-recurring tasks lacking one.
    Deadline,
}

/// The subset of the sorted collection an operation visits.
pub fn operation_policy(op: ListOperation) -> (r: EligibilityPolicy)
    ensures
        r == (match op {
            ListOperation::Process => EligibilityPolicy::DueOrUndated,
            ListOperation::Prioritize => EligibilityPolicy::All,
            ListOperation::Timebox => EligibilityPolicy::MissingDuration,
            ListOperation::Label => EligibilityPolicy::All,
            ListOperation::Schedule { skip_recurring, overdue } => EligibilityPolicy::Schedule {
                filter: if overdue {
                    TaskFilter::Overdue
                } else {
                    TaskFilter::Unscheduled
                },
                skip_recurring,
            },
            ListOperation::Deadline => EligibilityPolicy::MissingDeadline,
        }),
{
    match op {
        ListOperation::Process => EligibilityPolicy::DueOrUndated,
        ListOperation::Prioritize => EligibilityPolicy::All,
        ListOperation::Label => EligibilityPolicy::All,
        ListOperation::Timebox => EligibilityPolicy::MissingDuration,
        ListOperation::Schedule { skip_recurring, overdue } => EligibilityPolicy::Schedule {
            filter: crate::commands::list_commands::schedule_task_filter(overdue),
            skip_recurring,
        },
        ListOperation::Deadline => EligibilityPolicy::MissingDeadline,
    }
}

/// The next task to work on: the top of the value-sorted collection,
/// or nothing when the collection is empty.
pub fn next_task(tasks: Vec<Task>, today: u32) -> (r: Option<Task>)
    ensures
        tasks@.len() == 0 ==> r is None,
        tasks@.len() > 0 ==> (r matches Some(t) && t == sort_spec(
            tasks@,
            SortOrder::Value,
            today,
        )[0]),
{
    proof {
        crate::sorting::lemma_sort_spec_multiset(tasks@, SortOrder::Value, today);
    }
    let mut sorted = crate::sorting::sort(tasks, SortOrder::Value, today);
    if sorted.len() == 0 {
        None
    } else {
        Some(sorted.remove(0))
    }
}

/// Where the first line of the text ends: the index of the first
/// newline, or the text's length when none remains.
pub open spec fn line_break(s: Seq<char>) -> int
    decreases s.len(),
{
    if s.len() == 0 {
        0
    } else if s[0] == '\n' {
        0
    } else {
        1 + line_break(s.drop_first())
    }
}

/// A line with a carriage return left by a CRLF ending stripped.
pub open spec fn strip_cr(l: Seq<char>) -> Seq<char> {
    if l.len() > 0 && l.last() == '\r' {
        l.drop_last()
    } else {
        l
    }
}

/// The lines of a document, split at newlines, CRLF endings stripped,
/// the final newline optional.
pub open spec fn split_lines(s: Seq<char>) -> Seq<Seq<char>>
    decreases s.len(),
    via split_lines_decreases
{
    if s.len() == 0 {
        Seq::empty()
    } else {
        let i = line_break(s);
        if i == s.len() {
            seq![s]
        } else {
            seq![strip_cr(s.take(i))] + split_lines(s.skip(i + 1))
        }
    }
}

#[via_fn]
proof fn split_lines_decreases(s: Seq<char>) {
    lemma_line_break(s);
}

/// The break marks exactly the first newline position.
proof fn lemma_line_break(s: Seq<char>)
    ensures
        0 <= line_break(s) <= s.len(),
        forall|i: int| 0 <= i < line_break(s) ==> (#[trigger] s[i]) != '\n',
        line_break(s) < s.len() ==> s[line_break(s)] == '\n',
    decreases s.len(),
{
    if s.len() > 0 && s[0] != '\n' {
        lemma_line_break(s.drop_first());
        assert forall|i: int| 0 <= i < line_break(s) implies (#[trigger] s[i]) != '\n' by {
            if i > 0 {
                assert(s.drop_first()[i - 1] == s[i]);
            }
        }
        if line_break(s) < s.len() {
            assert(s.drop_first()[line_break(s) - 1] == s[line_break(s)]);
        }
    }
}

/// A position with no newline before it, and a newline (or the end)
/// at it, is the break.
proof fn lemma_line_break_unique(s: Seq<char>, a: int)
    requires
        0 <= a <= s.len(),
        forall|i: int| 0 <= i < a ==> (#[trigger] s[i]) != '\n',
        a < s.len() ==> s[a] == '\n',
    ensures
        line_break(s) == a,
{
    lemma_line_break(s);
    let b = line_break(s);
    if b < a {
        assert(s[b] != '\n');
        assert(s[b] == '\n');
    }
    if a < b {
        assert(s[a] != '\n');
    }
}

/// A one-line sequence filters to itself or to nothing.
proof fn lemma_filter_singleton_line(x: Seq<char>, pred: spec_fn(Seq<char>) -> bool)
    ensures
        seq![x].filter(pred) == (if pred(x) {
            seq![x]
        } else {
            Seq::<Seq<char>>::empty()
        }),
{
    reveal_with_fuel(Seq::<_>::filter, 2);
    assert(seq![x].drop_last() =~= Seq::<Seq<char>>::empty());
    if pred(x) {
        assert(Seq::<Seq<char>>::empty().push(x) =~= seq![x]);
    }
}

/// The non-blank lines of a document, in order: the content a bulk
/// import submits, one new task per line.
pub fn import_lines(text: &str) -> (r: Vec<String>)
    ensures
        r@.map_values(|l: String| l@) == split_lines(text@).filter(
            |l: Seq<char>| l.len() > 0,
        ),
    decreases text@.len(),
{
    let ghost pred = |l: Seq<char>| l.len() > 0;
    let n = text.unicode_len();
    if n == 0 {
        let r: Vec<String> = Vec::new();
        proof {
            reveal_with_fuel(Seq::<_>::filter, 1);
            assert(r@.map_values(|l: String| l@) =~= split_lines(text@).filter(pred));
        }
        return r;
    }
    let mut i: usize = 0;
    while i < n && text.get_char(i) != '\n'
        invariant
            i <= n,
            n == text@.len(),
            forall|j: int| 0 <= j < i ==> (#[trigger] text@[j]) != '\n',
        decreases n - i,
    {
        i = i + 1;
    }
    proof {
        lemma_line_break_unique(text@, i as int);
    }
    if i == n {
        // No newline: the whole text is the one remaining line.
        let mut r: Vec<String> = Vec::new();
        r.push(text.to_owned());
        proof {
            assert(split_lines(text@) == seq![text@]);
            lemma_filter_singleton_line(text@, pred);
            assert(r@.map_values(|l: String| l@) =~= seq![text@]);
        }
        r
    } else {
        let raw = text.substring_char(0, i);
        let line: String = if i > 0 && raw.get_char(i - 1) == '\r' {
            raw.substring_char(0, i - 1).to_owned()
        } else {
            raw.to_owned()
        };
        proof {
            assert(raw@ == text@.take(i as int));
            if i > 0 && text@.take(i as int).last() == '\r' {
                assert(raw@.subrange(0, i - 1) =~= text@.take(i as int).drop_last());
            }
            assert(line@ == strip_cr(text@.take(i as int)));
        }
        let rest = text.substring_char(i + 1, n);
        proof {
            assert(rest@ == text@.skip(i + 1));
        }
        let mut tail = import_lines(rest);
        let ghost tail0: Seq<String> = tail@;
        let ghost head: Seq<char> = strip_cr(text@.take(i as int));
        let mut r: Vec<String> = Vec::new();
        if line.as_str().unicode_len() > 0 {
            r.push(line);
        }
        r.append(&mut tail);
        proof {
            lemma_filter_singleton_line(head, pred);
            Seq::filter_distributes_over_add(seq![head], split_lines(text@.skip(i + 1)), pred);
            assert(split_lines(text@) == seq![head] + split_lines(text@.skip(i + 1)));
            assert(r@.map_values(|l: String| l@) =~= split_lines(text@).filter(pred));
        }
        r
    }
}

/// One collected piece of information for the current task.
#[derive(Debug, PartialEq)]
pub enum AttributeValue {
    /// A priority pick.
    Priority(Priority),
    /// The chosen subset of labels.
    Labels(Vec<String>),
    /// A date or datetime expression, verbatim; the external
    /// natural-language parser interprets it.
    DateText(String),
    /// Remove the date instead of setting one.
    NoDate,
    /// A duration in minutes.
    Duration(u32),
    /// Mark the task complete; the process loop collects only this.
    Complete,
}

/// What the user did while one task's value was being collected.
#[derive(Debug)]
pub enum CollectOutcome {
    /// A value was supplied for the current task.
    Submit(AttributeValue),
    /// Leave the current task unmodified and move on.
    Skip,
    /// End the whole loop early; what was done so far stands.
    Quit,
}

/// Where the per-task loop stands.
#[derive(Clone, Copy, Debug, PartialEq, Eq, Structural)]
pub enum Phase {
    /// Created but not yet started.
    Idle,
    /// The current task is about to be shown.
    Presenting,
    /// A value for the current task is being solicited.
    Collecting,
    /// The collected value is being sent to the remote service.
    Applying,
    /// Every task was presented once.
    Done,
    /// The user quit early; not an error.
    Cancelled,
    /// A remote update failed; the loop stops here.
    Failed,
}

/// The interactive per-task loop: it presents each task of an ordered
/// collection once, collects one attribute value, and records the
/// outcome of applying it, honoring skip, quit and failure.
#[derive(Debug)]
pub struct Workflow {
    /// The ordered, eligible collection; never reordered.
    pub tasks: Vec<Task>,
    /// Index of the current task; everything before it is resolved.
    pub position: usize,
    pub phase: Phase,
    /// Tasks whose update (or completion) was applied.
    pub completed: usize,
    /// Tasks the user skipped.
    pub skipped: usize,
    /// The value collected for the current task, while one is in
    /// flight.
    pub pending: Option<AttributeValue>,
}

impl Workflow {
    /// The loop's invariant: the position stays within the collection,
    /// every earlier task is accounted for exactly once, and a value
    /// is pending exactly while one is being applied.
    pub open spec fn wf(self) -> bool {
        &&& self.position <= self.tasks@.len()
        &&& self.completed + self.skipped == self.position
        &&& (self.phase == Phase::Applying <==> self.pending is Some)
        &&& (self.phase == Phase::Idle ==> self.position == 0)
        &&& (self.phase == Phase::Done ==> self.position == self.tasks@.len())
        &&& (self.phase == Phase::Presenting || self.phase == Phase::Collecting || self.phase
            == Phase::Applying ==> self.position < self.tasks@.len())
    }

    /// A fresh loop over an ordered collection, not yet started.
    pub fn new(tasks: Vec<Task>) -> (w: Workflow)
        ensures
            w.wf(),
            w.tasks@ == tasks@,
            w.phase == Phase::Idle,
            w.position == 0,
            w.completed == 0,
            w.skipped == 0,
    {
        Workflow {
            tasks,
            position: 0,
            phase: Phase::Idle,
            completed: 0,
            skipped: 0,
            pending: None,
        }
    }

    /// Starts the loop: an empty collection is immediately done,
    /// otherwise the first task is up for presentation.
    pub fn start(&mut self)
        requires
            old(self).wf(),
            old(self).phase == Phase::Idle,
        ensures
            final (self).wf(),
            final (self).tasks@ == old(self).tasks@,
            final (self).position == 0,
            final (self).completed == 0,
            final (self).skipped == 0,
            final (self).phase == (if old(self).tasks@.len() == 0 {
                Phase::Done
            } else {
                Phase::Presenting
            }),
    {
        if self.tasks.len() == 0 {
            self.phase = Phase::Done;
        } else {
            self.phase = Phase::Presenting;
        }
    }

    /// The task the loop currently stands on.
    pub fn current(&self) -> (t: &Task)
        requires
            self.wf(),
            self.phase == Phase::Presenting || self.phase == Phase::Collecting || self.phase
                == Phase::Applying,
        ensures
            *t == self.tasks@[self.position as int],
    {
        &self.tasks[self.position]
    }

    /// Marks the current task as shown; its value is solicited next.
    pub fn present(&mut self)
        requires
            old(self).wf(),
            old(self).phase == Phase::Presenting,
        ensures
            final (self).wf(),
            *final (self) == (Workflow { phase: Phase::Collecting, ..*old(self) }),
    {
        self.phase = Phase::Collecting;
    }

    /// Feeds in what the user did for the current task: a submitted
    /// value goes into flight, a skip leaves the task unmodified and
    /// advances, a quit cancels the rest of the loop.
    pub fn collect(&mut self, outcome: CollectOutcome)
        requires
            old(self).wf(),
            old(self).phase == Phase::Collecting,
        ensures
            final (self).wf(),
            final (self).tasks@ == old(self).tasks@,
            final (self).completed == old(self).completed,
            match outcome {
                CollectOutcome::Submit(v) => *final (self) == (Workflow {
                    phase: Phase::Applying,
                    pending: Some(v),
                    ..*old(self)
                }),
                CollectOutcome::Skip => {
                    &&& final (self).skipped == old(self).skipped + 1
                    &&& final (self).position == old(self).position + 1
                    &&& final (self).phase == (if old(self).position + 1 == old(
                        self,
                    ).tasks@.len() {
                        Phase::Done
                    } else {
                        Phase::Presenting
                    })
                    &&& final (self).pending is None
                },
                CollectOutcome::Quit => *final (self) == (Workflow {
                    phase: Phase::Cancelled,
                    ..*old(self)
                }),
            },
    {
        match outcome {
            CollectOutcome::Submit(v) => {
                self.pending = Some(v);
                self.phase = Phase::Applying;
            },
            CollectOutcome::Skip => {
                let n = self.tasks.len();
                self.skipped = self.skipped + 1;
                self.position = self.position + 1;
                self.phase = if self.position == n {
                    Phase::Done
                } else {
                    Phase::Presenting
                };
            },
            CollectOutcome::Quit => {
                self.phase = Phase::Cancelled;
            },
        }
    }

    /// Records the outcome of the remote update for the value in
    /// flight: success advances to the next task, failure stops the
    /// loop on the spot.
    pub fn apply_finished(&mut self, ok: bool)
        requires
            old(self).wf(),
            old(self).phase == Phase::Applying,
        ensures
            final (self).wf(),
            final (self).tasks@ == old(self).tasks@,
            final (self).pending is None,
            final (self).skipped == old(self).skipped,
            ok ==> {
                &&& final (self).completed == old(self).completed + 1
                &&& final (self).position == old(self).position + 1
                &&& final (self).phase == (if old(self).position + 1 == old(self).tasks@.len() {
                    Phase::Done
                } else {
                    Phase::Presenting
                })
            },
            !ok ==> {
                &&& final (self).completed == old(self).completed
                &&& final (self).position == old(self).position
                &&& final (self).phase == Phase::Failed
            },
    {
        self.pending = None;
        let n = self.tasks.len();
        if ok {
            self.completed = self.completed + 1;
            self.position = self.position + 1;
            self.phase = if self.position == n {
                Phase::Done
            } else {
                Phase::Presenting
            };
        } else {
            self.phase = Phase::Failed;
        }
    }

    /// How many tasks were never reached.
    pub fn remaining(&self) -> (r: usize)
        requires
            self.wf(),
        ensures
            r == self.tasks@.len() - self.position,
    {
        self.tasks.len() - self.position
    }
}

/// The report a finished or cancelled loop gives: how many tasks were
/// completed, skipped, and never reached.
pub open spec fn summary_chars(completed: nat, skipped: nat, remaining: nat) -> Seq<char> {
    dec_digits(completed) + " completed, "@ + dec_digits(skipped) + " skipped, "@ + dec_digits(
        remaining,
    ) + " not reached"@
}

impl Workflow {
    /// Renders the loop's report.
    pub fn summary(&self) -> (s: String)
        requires
            self.wf(),
        ensures
            s@ == summary_chars(
                self.completed as nat,
                self.skipped as nat,
                (self.tasks@.len() - self.position) as nat,
            ),
    {
        let mut s = format_count(self.completed);
        s.append(" completed, ");
        let t = format_count(self.skipped);
        s.append(t.as_str());
        s.append(" skipped, ");
        let u = format_count(self.tasks.len() - self.position);
        s.append(u.as_str());
        s.append(" not reached");
        s
    }
}

} // verus!

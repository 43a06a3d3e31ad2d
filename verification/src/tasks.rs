use vstd::prelude::*;

pub mod priority;

use priority::Priority;

verus! {

/// A due specification: a day number, an optional time of day in
/// minutes after midnight, and whether the task repeats. Days count
/// from an arbitrary epoch; only their order matters here.
#[derive(Clone, Copy, Debug, PartialEq, Eq)]
pub struct DueSpec {
    pub day: u32,
    pub minutes: Option<u32>,
    pub is_recurring: bool,
}

/// A transient copy of a remote task, held for the duration of one
/// command. The remote service owns the authoritative record.
#[derive(Debug, Clone, PartialEq)]
pub struct Task {
    pub id: String,
    pub content: String,
    pub description: String,
    pub priority: Priority,
    pub due: Option<DueSpec>,
    /// Deadline day number; deadlines carry no time of day.
    pub deadline: Option<u32>,
    /// Duration in minutes.
    pub duration: Option<u32>,
    pub labels: Vec<String>,
    pub project_id: String,
    pub section_id: Option<String>,
    pub is_completed: bool,
}

/// How a fetched collection is ordered before the per-task loop runs.
#[derive(Clone, Copy, Debug, PartialEq, Eq, Structural)]
pub enum SortOrder {
    /// Chronological by the earliest of due and deadline; undated last.
    Datetime,
    /// By a priority-weighted score, higher first.
    Value,
}

/// The fields offered for interactive selection when a task is created
/// without explicit flags.
#[derive(Clone, Copy, Debug, PartialEq, Eq, Structural)]
pub enum TaskAttribute {
    Description,
    Priority,
    Due,
    Labels,
}

/// The attributes offered at task creation, in presentation order.
pub fn create_task_attributes() -> (r: Vec<TaskAttribute>)
    ensures
        r@ =~= seq![
            TaskAttribute::Description,
            TaskAttribute::Priority,
            TaskAttribute::Due,
            TaskAttribute::Labels,
        ],
{
    let mut v: Vec<TaskAttribute> = Vec::new();
    v.push(TaskAttribute::Description);
    v.push(TaskAttribute::Priority);
    v.push(TaskAttribute::Due);
    v.push(TaskAttribute::Labels);
    v
}

impl SortOrder {
    /// The spelling used on the command line for this order.
    pub fn name(&self) -> (r: &'static str)
        ensures
            *self == SortOrder::Datetime ==> r@ == "datetime"@,
            *self == SortOrder::Value ==> r@ == "value"@,
    {
        match self {
            SortOrder::Datetime => "datetime",
            SortOrder::Value => "value",
        }
    }
}

/// Minutes from the epoch down to a due specification, using midnight
/// when no time of day is given.
pub open spec fn due_stamp(d: DueSpec) -> int {
    d.day * 1440 + (match d.minutes {
        Some(m) => m as int,
        None => 0,
    })
}

/// Whether a task carries any date at all.
pub open spec fn is_dated(t: Task) -> bool {
    t.due is Some || t.deadline is Some
}

/// The earliest of due and deadline, in minutes from the epoch.
pub open spec fn date_stamp(t: Task) -> Option<int> {
    match (t.due, t.deadline) {
        (Some(d), Some(dl)) => if due_stamp(d) <= dl * 1440 {
            Some(due_stamp(d))
        } else {
            Some(dl * 1440)
        },
        (Some(d), None) => Some(due_stamp(d)),
        (None, Some(dl)) => Some(dl * 1440),
        (None, None) => None,
    }
}

/// Sort stamp given to every task without a date: it exceeds every
/// possible dated stamp, so undated tasks sort after all dated ones.
pub open spec fn undated_stamp() -> int {
    0x2_0000_0000int * 1440
}

/// The chronological sort key: the date stamp, or the past-everything
/// sentinel for undated tasks.
pub open spec fn datetime_key(t: Task) -> int {
    match date_stamp(t) {
        Some(s) => s,
        None => undated_stamp(),
    }
}

/// Weight a priority contributes to the value score. It rises with the
/// priority and dwarfs every other contribution.
pub open spec fn priority_weight(p: Priority) -> int {
    match p {
        Priority::Unset => 0,
        Priority::Low => 1,
        Priority::Medium => 2,
        Priority::High => 3,
    }
}

/// Weight the due date contributes to the value score: overdue or
/// due-today tasks outrank future-dated ones, which outrank undated
/// ones, and the weight grows with how overdue a task is (capped).
pub open spec fn due_urgency(t: Task, today: u32) -> int {
    match t.due {
        Some(d) => if d.day <= today {
            200 + (if today - d.day > 500 {
                500
            } else {
                today - d.day
            })
        } else {
            100
        },
        None => 0,
    }
}

/// Small bonus for labelled tasks, capped so it never outweighs a due
/// date, let alone a priority step.
pub open spec fn label_bonus(t: Task) -> int {
    if t.labels@.len() > 10 {
        10
    } else {
        t.labels@.len() as int
    }
}

/// The value score: priority dominates, then due urgency, then labels.
/// Higher scores are served first.
pub open spec fn value_score(t: Task, today: u32) -> int {
    priority_weight(t.priority) * 1000 + due_urgency(t, today) + label_bonus(t)
}

/// The sort key: ascending order by this key realises the chosen
/// policy. For `Value` the score is flipped so higher scores come
/// first.
pub open spec fn sort_key(t: Task, order: SortOrder, today: u32) -> int {
    match order {
        SortOrder::Datetime => datetime_key(t),
        SortOrder::Value => 10000 - value_score(t, today),
    }
}

/// Computes the sort key of a task as a machine integer.
pub fn task_key(t: &Task, order: SortOrder, today: u32) -> (k: u64)
    ensures
        k as int == sort_key(*t, order, today),
{
    match order {
        SortOrder::Datetime => {
            let due_k: Option<u64> = match &t.due {
                Some(d) => {
                    let m: u64 = match d.minutes {
                        Some(m) => m as u64,
                        None => 0u64,
                    };
                    Some((d.day as u64) * 1440 + m)
                },
                None => None,
            };
            let deadline_k: Option<u64> = match t.deadline {
                Some(dl) => Some((dl as u64) * 1440),
                None => None,
            };
            match (due_k, deadline_k) {
                (Some(a), Some(b)) => if a <= b {
                    a
                } else {
                    b
                },
                (Some(a), None) => a,
                (None, Some(b)) => b,
                (None, None) => 0x2_0000_0000u64 * 1440,
            }
        },
        SortOrder::Value => {
            let pw: u64 = match t.priority {
                Priority::Unset => 0,
                Priority::Low => 1,
                Priority::Medium => 2,
                Priority::High => 3,
            };
            let urgency: u64 = match &t.due {
                Some(d) => {
                    if d.day <= today {
                        let overdue: u32 = today - d.day;
                        let capped: u64 = if overdue > 500 {
                            500
                        } else {
                            overdue as u64
                        };
                        200 + capped
                    } else {
                        100
                    }
                },
                None => 0,
            };
            let bonus: u64 = if t.labels.len() > 10 {
                10
            } else {
                t.labels.len() as u64
            };
            10000 - (pw * 1000 + urgency + bonus)
        },
    }
}

/// The same task with another priority; used to state how the score
/// responds to priority alone.
pub open spec fn with_priority(t: Task, p: Priority) -> Task {
    Task { priority: p, ..t }
}

/// The same task due on another day; used to state how the score
/// responds to overdue-ness alone.
pub open spec fn with_due_day(t: Task, day: u32) -> Task {
    Task {
        due: Some(
            DueSpec {
                day,
                minutes: match t.due {
                    Some(d) => d.minutes,
                    None => None,
                },
                is_recurring: match t.due {
                    Some(d) => d.is_recurring,
                    None => false,
                },
            },
        ),
        ..t
    }
}

/// The value score is strictly monotonic in priority: raising only the
/// priority of a task strictly raises its score.
pub proof fn lemma_value_score_monotonic_in_priority(
    t: Task,
    p1: Priority,
    p2: Priority,
    today: u32,
)
    requires
        priority_weight(p1) < priority_weight(p2),
    ensures
        value_score(with_priority(t, p1), today) < value_score(with_priority(t, p2), today),
{
}

/// The value score is monotonic in overdue-ness: among tasks due today
/// or earlier, an earlier (more overdue) due day never scores lower.
pub proof fn lemma_value_score_monotonic_in_overdue(t: Task, d1: u32, d2: u32, today: u32)
    requires
        d1 <= d2 <= today,
    ensures
        value_score(with_due_day(t, d1), today) >= value_score(with_due_day(t, d2), today),
{
}

} // verus!

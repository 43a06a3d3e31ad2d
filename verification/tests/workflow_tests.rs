use tod::lists::{
    filter_tasks, operation_policy, prepare_tasks, AttributeValue, CollectOutcome,
    EligibilityPolicy, ListOperation, Phase, Workflow,
};
use tod::projects::TaskFilter;
use tod::tasks::priority::Priority;
use tod::tasks::{DueSpec, SortOrder, Task};

fn task(id: &str, priority: Priority, due_day: Option<u32>) -> Task {
    Task {
        id: id.to_string(),
        content: format!("task {id}"),
        description: String::new(),
        priority,
        due: due_day.map(|day| DueSpec { day, minutes: None, is_recurring: false }),
        deadline: None,
        duration: None,
        labels: Vec::new(),
        project_id: "p1".to_string(),
        section_id: None,
        is_completed: false,
    }
}

fn ids(tasks: &[Task]) -> Vec<String> {
    tasks.iter().map(|t| t.id.clone()).collect()
}

#[test]
fn process_loop_reports_completed_skipped_and_not_reached() {
    let tasks = vec![
        task("one", Priority::High, None),
        task("two", Priority::Medium, None),
        task("three", Priority::Low, None),
    ];
    let mut w = Workflow::new(tasks);
    w.start();

    // The user completes the first task.
    assert_eq!(w.phase, Phase::Presenting);
    assert_eq!(w.current().id, "one");
    w.present();
    w.collect(CollectOutcome::Submit(AttributeValue::Complete));
    assert_eq!(w.phase, Phase::Applying);
    w.apply_finished(true);

    // The user skips the second task.
    assert_eq!(w.current().id, "two");
    w.present();
    w.collect(CollectOutcome::Skip);

    // The user quits at the third task.
    assert_eq!(w.current().id, "three");
    w.present();
    w.collect(CollectOutcome::Quit);
    assert_eq!(w.phase, Phase::Cancelled);

    assert_eq!(w.summary(), "1 completed, 1 skipped, 1 not reached");
}

#[test]
fn deadline_pass_presents_only_tasks_lacking_one() {
    let mut recurring_with_deadline = task("recurring", Priority::Unset, Some(10));
    recurring_with_deadline.due =
        Some(DueSpec { day: 10, minutes: None, is_recurring: true });
    recurring_with_deadline.deadline = Some(20);
    let plain = task("plain", Priority::Unset, None);
    let tasks = vec![recurring_with_deadline, plain];
    let eligible =
        prepare_tasks(tasks, SortOrder::Value, EligibilityPolicy::MissingDeadline, 15);
    assert_eq!(ids(&eligible), vec!["plain"]);
}

#[test]
fn completed_loop_reports_full_counts() {
    let tasks = vec![task("a", Priority::Unset, None), task("b", Priority::Unset, None)];
    let mut w = Workflow::new(tasks);
    w.start();
    for _ in 0..2 {
        w.present();
        w.collect(CollectOutcome::Submit(AttributeValue::Priority(Priority::High)));
        w.apply_finished(true);
    }
    assert_eq!(w.phase, Phase::Done);
    assert_eq!(w.summary(), "2 completed, 0 skipped, 0 not reached");
}

#[test]
fn remote_failure_stops_the_loop() {
    let tasks = vec![task("a", Priority::Unset, None), task("b", Priority::Unset, None)];
    let mut w = Workflow::new(tasks);
    w.start();
    w.present();
    w.collect(CollectOutcome::Submit(AttributeValue::Duration(30)));
    w.apply_finished(false);
    assert_eq!(w.phase, Phase::Failed);
    assert_eq!(w.completed, 0);
    assert_eq!(w.remaining(), 2);
}

#[test]
fn empty_collection_is_done_at_start() {
    let mut w = Workflow::new(Vec::new());
    w.start();
    assert_eq!(w.phase, Phase::Done);
    assert_eq!(w.summary(), "0 completed, 0 skipped, 0 not reached");
}

#[test]
fn pending_value_is_held_while_applying() {
    let tasks = vec![task("a", Priority::Unset, None)];
    let mut w = Workflow::new(tasks);
    w.start();
    w.present();
    w.collect(CollectOutcome::Submit(AttributeValue::DateText("tomorrow".to_string())));
    assert_eq!(w.pending, Some(AttributeValue::DateText("tomorrow".to_string())));
    w.apply_finished(true);
    assert_eq!(w.pending, None);
}

#[test]
fn each_operation_visits_its_own_subset() {
    assert_eq!(
        operation_policy(ListOperation::Process),
        EligibilityPolicy::DueOrUndated
    );
    assert_eq!(operation_policy(ListOperation::Prioritize), EligibilityPolicy::All);
    assert_eq!(operation_policy(ListOperation::Label), EligibilityPolicy::All);
    assert_eq!(
        operation_policy(ListOperation::Timebox),
        EligibilityPolicy::MissingDuration
    );
    assert_eq!(
        operation_policy(ListOperation::Deadline),
        EligibilityPolicy::MissingDeadline
    );
    assert_eq!(
        operation_policy(ListOperation::Schedule { skip_recurring: true, overdue: true }),
        EligibilityPolicy::Schedule { filter: TaskFilter::Overdue, skip_recurring: true }
    );
    assert_eq!(
        operation_policy(ListOperation::Schedule { skip_recurring: false, overdue: false }),
        EligibilityPolicy::Schedule { filter: TaskFilter::Unscheduled, skip_recurring: false }
    );
}

#[test]
fn next_task_is_the_top_of_the_value_sort() {
    let tasks = vec![
        task("low", Priority::Low, None),
        task("high", Priority::High, None),
        task("medium", Priority::Medium, None),
    ];
    let next = tod::lists::next_task(tasks, 0).unwrap();
    assert_eq!(next.id, "high");
    assert_eq!(tod::lists::next_task(Vec::new(), 0), None);
}

#[test]
fn schedule_policy_keeps_overdue_and_can_spare_recurring() {
    let mut recurring_overdue = task("recurring", Priority::Unset, Some(5));
    recurring_overdue.due = Some(DueSpec { day: 5, minutes: None, is_recurring: true });
    let plain_overdue = task("overdue", Priority::Unset, Some(6));
    let future = task("future", Priority::Unset, Some(50));
    let tasks = vec![recurring_overdue.clone(), plain_overdue.clone(), future.clone()];

    let keep_all = filter_tasks(
        tasks.clone(),
        EligibilityPolicy::Schedule { filter: TaskFilter::Overdue, skip_recurring: false },
        10,
    );
    assert_eq!(ids(&keep_all), vec!["recurring", "overdue"]);

    let spare = filter_tasks(
        tasks,
        EligibilityPolicy::Schedule { filter: TaskFilter::Overdue, skip_recurring: true },
        10,
    );
    assert_eq!(ids(&spare), vec!["overdue"]);
}

#[test]
fn schedule_policy_unscheduled_keeps_undated_tasks() {
    let undated = task("undated", Priority::Unset, None);
    let dated = task("dated", Priority::Unset, Some(3));
    let kept = filter_tasks(
        vec![undated, dated],
        EligibilityPolicy::Schedule { filter: TaskFilter::Unscheduled, skip_recurring: false },
        10,
    );
    assert_eq!(ids(&kept), vec!["undated"]);
}

#[test]
fn process_policy_keeps_due_today_or_earlier_or_undated() {
    let tasks = vec![
        task("future", Priority::Unset, Some(20)),
        task("today", Priority::Unset, Some(10)),
        task("past", Priority::Unset, Some(5)),
        task("undated", Priority::Unset, None),
    ];
    let kept = filter_tasks(tasks, EligibilityPolicy::DueOrUndated, 10);
    assert_eq!(ids(&kept), vec!["today", "past", "undated"]);
}

#[test]
fn timebox_policy_keeps_tasks_without_durations() {
    let mut boxed = task("boxed", Priority::Unset, None);
    boxed.duration = Some(25);
    let open = task("open", Priority::Unset, None);
    let kept = filter_tasks(vec![boxed, open], EligibilityPolicy::MissingDuration, 0);
    assert_eq!(ids(&kept), vec!["open"]);
}

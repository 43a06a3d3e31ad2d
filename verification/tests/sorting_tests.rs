use tod::tasks::priority::Priority;
use tod::tasks::{DueSpec, SortOrder, Task};

fn task(id: &str, priority: Priority, due_day: Option<u32>) -> Task {
    Task {
        id: id.to_string(),
        content: format!("task {id}"),
        description: String::new(),
        priority,
        due: due_day.map(|day| DueSpec { day, minutes: None, is_recurring: false }),
        deadline: None,
        duration: None,
        labels: Vec::new(),
        project_id: "p1".to_string(),
        section_id: None,
        is_completed: false,
    }
}

fn ids(tasks: &[Task]) -> Vec<String> {
    tasks.iter().map(|t| t.id.clone()).collect()
}

#[test]
fn datetime_sort_puts_dated_before_undated() {
    let tasks = vec![
        task("undated1", Priority::Unset, None),
        task("late", Priority::Unset, Some(300)),
        task("undated2", Priority::Unset, None),
        task("early", Priority::Unset, Some(100)),
        task("mid", Priority::Unset, Some(200)),
    ];
    let sorted = tod::sorting::sort(tasks, SortOrder::Datetime, 150);
    assert_eq!(ids(&sorted), vec!["early", "mid", "late", "undated1", "undated2"]);
}

#[test]
fn datetime_sort_uses_earliest_of_due_and_deadline() {
    let mut a = task("due-late-deadline-early", Priority::Unset, Some(500));
    a.deadline = Some(10);
    let b = task("due-mid", Priority::Unset, Some(100));
    let sorted = tod::sorting::sort(vec![b, a], SortOrder::Datetime, 0);
    assert_eq!(ids(&sorted), vec!["due-late-deadline-early", "due-mid"]);
}

#[test]
fn datetime_sort_keeps_fetch_order_for_equal_dates() {
    let tasks = vec![
        task("first", Priority::Unset, Some(100)),
        task("second", Priority::Unset, Some(100)),
        task("third", Priority::Unset, Some(100)),
    ];
    let sorted = tod::sorting::sort(tasks, SortOrder::Datetime, 100);
    assert_eq!(ids(&sorted), vec!["first", "second", "third"]);
}

#[test]
fn sorting_is_idempotent() {
    let tasks = vec![
        task("undated", Priority::Low, None),
        task("b", Priority::High, Some(90)),
        task("c", Priority::Unset, Some(110)),
        task("d", Priority::Medium, Some(100)),
    ];
    for order in [SortOrder::Datetime, SortOrder::Value] {
        let once = tod::sorting::sort(tasks.clone(), order, 100);
        let twice = tod::sorting::sort(once.clone(), order, 100);
        assert_eq!(once, twice);
    }
}

#[test]
fn value_sort_orders_by_priority_first() {
    let tasks = vec![
        task("none", Priority::Unset, None),
        task("high", Priority::High, None),
        task("medium", Priority::Medium, None),
    ];
    let sorted = tod::sorting::sort(tasks, SortOrder::Value, 100);
    assert_eq!(ids(&sorted), vec!["high", "medium", "none"]);
}

#[test]
fn value_sort_ranks_overdue_over_future_over_undated() {
    let tasks = vec![
        task("undated", Priority::Unset, None),
        task("future", Priority::Unset, Some(200)),
        task("overdue", Priority::Unset, Some(50)),
        task("today", Priority::Unset, Some(100)),
    ];
    let sorted = tod::sorting::sort(tasks, SortOrder::Value, 100);
    // More overdue outranks due today, which outranks future, which
    // outranks undated.
    assert_eq!(ids(&sorted), vec!["overdue", "today", "future", "undated"]);
}

#[test]
fn value_sort_priority_outweighs_overdue() {
    let tasks = vec![
        task("low-overdue", Priority::Low, Some(1)),
        task("high-future", Priority::High, Some(400)),
    ];
    let sorted = tod::sorting::sort(tasks, SortOrder::Value, 300);
    assert_eq!(ids(&sorted), vec!["high-future", "low-overdue"]);
}

#[test]
fn value_sort_labels_break_ties() {
    let mut labelled = task("labelled", Priority::Low, None);
    labelled.labels = vec!["a".to_string(), "b".to_string()];
    let plain = task("plain", Priority::Low, None);
    let sorted = tod::sorting::sort(vec![plain, labelled], SortOrder::Value, 100);
    assert_eq!(ids(&sorted), vec!["labelled", "plain"]);
}

#[test]
fn sort_of_empty_collection_is_empty() {
    let sorted = tod::sorting::sort(Vec::new(), SortOrder::Datetime, 0);
    assert!(sorted.is_empty());
}

#[test]
fn task_key_flips_value_score() {
    let high = task("h", Priority::High, None);
    let low = task("l", Priority::Low, None);
    assert!(
        tod::tasks::task_key(&high, SortOrder::Value, 0)
            < tod::tasks::task_key(&low, SortOrder::Value, 0)
    );
}

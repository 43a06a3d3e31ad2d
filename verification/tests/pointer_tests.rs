use tod::config::Config;
use tod::tasks::priority::Priority;
use tod::tasks::Task;
use tod::ErrorKind;

fn task(id: &str) -> Task {
    Task {
        id: id.to_string(),
        content: format!("task {id}"),
        description: String::new(),
        priority: Priority::Unset,
        due: None,
        deadline: None,
        duration: None,
        labels: Vec::new(),
        project_id: "p1".to_string(),
        section_id: None,
        is_completed: false,
    }
}

#[test]
fn recall_before_any_remember_fails_with_no_current_task() {
    let config = Config::new();
    let e = config.recall().unwrap_err();
    assert_eq!(e.kind, ErrorKind::NoCurrentTask);
}

#[test]
fn recall_returns_the_last_remembered_task() {
    let mut config = Config::new();
    config.remember(task("a"));
    config.remember(task("b"));
    let recalled = config.recall().unwrap();
    assert_eq!(recalled.id, "b");
}

#[test]
fn recall_is_read_only() {
    let mut config = Config::new();
    config.remember(task("a"));
    let first = config.recall().unwrap().id.clone();
    let second = config.recall().unwrap().id.clone();
    assert_eq!(first, "a");
    assert_eq!(second, "a");
}

#[test]
fn remember_leaves_the_rest_of_the_config_alone() {
    let mut config = Config::new();
    config.bell_on_success = true;
    config.mock_select = Some(2);
    config.remember(task("a"));
    assert!(config.bell_on_success);
    assert_eq!(config.mock_select, Some(2));
}

use tod::commands::list_commands::{is_md_file, schedule_task_filter};
use tod::commands::project_commands::{remove_mode, RemoveMode};
use tod::commands::task_commands::{
    attribute_selected, is_no_sections, no_flags_used, split_reminder, Create,
};
use tod::config::Config;
use tod::debug::{maybe_print, maybe_print_redacted_config, redact_token};
use tod::projects::TaskFilter;
use tod::regexes::{find_markdown_link, is_date, is_datetime};
use tod::strings::{format_count, trim_spaces};
use tod::tasks::priority::{from_integer, Priority};
use tod::tasks::{create_task_attributes, SortOrder, TaskAttribute};
use tod::ErrorKind;

fn create_args() -> Create {
    Create {
        project: None,
        due: None,
        description: String::new(),
        content: None,
        no_section: false,
        priority: None,
        label: Vec::new(),
    }
}

#[test]
fn errors_display_their_component_and_message() {
    let e = tod::Error::new(ErrorKind::ProjectNotFound, "fetch_project", "no such project");
    assert_eq!(e.display_string(), "Error from fetch_project: no such project");
}

#[test]
fn remote_update_errors_carry_the_task_id() {
    let e = tod::Error::remote_update("update", "boom", "task-7");
    assert_eq!(e.kind, ErrorKind::RemoteUpdateFailed);
    assert_eq!(e.task_id, Some("task-7".to_string()));
}

#[test]
fn long_version_lists_build_details() {
    let v = tod::long_version("tod", "0.1.0", "release", "x86_64", "2024-01-01");
    assert_eq!(v, "tod (0.1.0, release, x86_64, 2024-01-01)");
}

#[test]
fn redact_token_keeps_only_the_suffix() {
    let token = "abcdefghijklmnopqrstuvwxyz0123456789ABCD";
    assert_eq!(token.len(), 40);
    let redacted = redact_token(token);
    assert_eq!(redacted, format!("{}{}", "x".repeat(35), "9ABCD"));
}

#[test]
fn redact_token_short_tokens_keep_everything() {
    assert_eq!(redact_token("abc"), format!("{}abc", "x".repeat(35)));
}

#[test]
fn maybe_print_honors_verbose() {
    let mut config = Config::new();
    assert_eq!(maybe_print(&config, "hello".to_string()), None);
    config.verbose = Some(true);
    assert_eq!(maybe_print(&config, "hello".to_string()), Some("hello".to_string()));
    config.verbose = None;
    config.args.verbose = true;
    assert_eq!(maybe_print(&config, "hi".to_string()), Some("hi".to_string()));
}

#[test]
fn maybe_print_redacted_config_redacts_the_token() {
    let mut config = Config::new();
    config.token = Some("abcdefghijklmnopqrstuvwxyz0123456789ABCD".to_string());
    assert_eq!(maybe_print_redacted_config(&config), None);
    config.verbose = Some(true);
    let shown = maybe_print_redacted_config(&config).unwrap().unwrap();
    assert!(shown.ends_with("9ABCD"));
    assert!(shown.starts_with("xxxxx"));
    config.token = None;
    assert_eq!(maybe_print_redacted_config(&config), Some(None));
}

#[test]
fn date_shapes_are_recognised() {
    assert!(is_date("2024-01-31"));
    assert!(!is_date("2024-1-31"));
    assert!(!is_date("2024-01-31 "));
    assert!(!is_date("2024/01/31"));
    assert!(!is_date(""));
    assert!(is_datetime("2024-01-31 09:30"));
    assert!(!is_datetime("2024-01-31T09:30"));
    assert!(!is_datetime("2024-01-31 9:30"));
}

#[test]
fn markdown_links_are_found_leftmost_first() {
    assert_eq!(
        find_markdown_link("see [docs](https://example.net) and [more](x)"),
        Some(("docs".to_string(), "https://example.net".to_string()))
    );
    assert_eq!(find_markdown_link("no link here"), None);
    assert_eq!(find_markdown_link("[]()"), None);
    assert_eq!(find_markdown_link("[broken(url)"), None);
    assert_eq!(
        find_markdown_link("[a][b](c)"),
        Some(("b".to_string(), "c".to_string()))
    );
}

#[test]
fn format_count_renders_decimals() {
    assert_eq!(format_count(0), "0");
    assert_eq!(format_count(7), "7");
    assert_eq!(format_count(42), "42");
    assert_eq!(format_count(1203), "1203");
}

#[test]
fn trim_spaces_strips_both_ends() {
    assert_eq!(trim_spaces("  hello world \t"), "hello world");
    assert_eq!(trim_spaces("   "), "");
    assert_eq!(trim_spaces("x"), "x");
}

#[test]
fn split_reminder_splits_on_the_first_bang() {
    let (content, reminder) = split_reminder("Get milk on sunday !saturday 4pm");
    assert_eq!(content, "Get milk on sunday");
    assert_eq!(reminder, Some("saturday 4pm".to_string()));

    let (content, reminder) = split_reminder("Just a task");
    assert_eq!(content, "Just a task");
    assert_eq!(reminder, None);
}

#[test]
fn import_lines_skips_empty_lines() {
    let lines = tod::lists::import_lines("Buy milk\n\nWalk dog\r\n\r\nlast line");
    assert_eq!(lines, vec!["Buy milk", "Walk dog", "last line"]);
}

#[test]
fn import_lines_of_an_empty_document_are_none() {
    assert!(tod::lists::import_lines("").is_empty());
    assert!(tod::lists::import_lines("\n\n").is_empty());
}

#[test]
fn no_flags_used_notices_every_flag() {
    let args = create_args();
    assert!(no_flags_used(&args));
    let mut with_content = create_args();
    with_content.content = Some("x".to_string());
    assert!(!no_flags_used(&with_content));
    let mut with_priority = create_args();
    with_priority.priority = Some(2);
    assert!(!no_flags_used(&with_priority));
    let mut with_label = create_args();
    with_label.label = vec!["l".to_string()];
    assert!(!no_flags_used(&with_label));
}

#[test]
fn is_no_sections_by_flag_or_config() {
    let config = Config::new();
    let mut args = create_args();
    assert!(!is_no_sections(&args, &config));
    args.no_section = true;
    assert!(is_no_sections(&args, &config));
    args.no_section = false;
    let mut config = Config::new();
    config.no_sections = Some(true);
    assert!(is_no_sections(&args, &config));
    config.no_sections = Some(false);
    assert!(!is_no_sections(&args, &config));
}

#[test]
fn remove_mode_rejects_conflicting_flags() {
    assert_eq!(remove_mode(true, false).unwrap(), RemoveMode::All);
    assert_eq!(remove_mode(false, true).unwrap(), RemoveMode::Auto);
    assert_eq!(remove_mode(false, false).unwrap(), RemoveMode::Prompt);
    let e = remove_mode(true, true).unwrap_err();
    assert_eq!(e.kind, ErrorKind::SelectorConflict);
}

#[test]
fn md_files_are_recognised_by_suffix() {
    assert!(is_md_file("notes.md"));
    assert!(!is_md_file("notes.txt"));
    assert!(!is_md_file("md"));
    assert!(is_md_file("a.md"));
}

#[test]
fn schedule_task_filter_follows_the_flag() {
    assert_eq!(schedule_task_filter(true), TaskFilter::Overdue);
    assert_eq!(schedule_task_filter(false), TaskFilter::Unscheduled);
}

#[test]
fn priority_ordinals_round_trip() {
    assert_eq!(from_integer(&Some(1)), Some(Priority::Unset));
    assert_eq!(from_integer(&Some(4)), Some(Priority::High));
    assert_eq!(from_integer(&Some(5)), None);
    assert_eq!(from_integer(&None), None);
    assert_eq!(Priority::Medium.to_integer(), 3);
}

#[test]
fn creation_attributes_come_in_presentation_order() {
    let attrs = create_task_attributes();
    assert_eq!(
        attrs,
        vec![
            TaskAttribute::Description,
            TaskAttribute::Priority,
            TaskAttribute::Due,
            TaskAttribute::Labels,
        ]
    );
}

#[test]
fn attribute_selection_is_by_membership() {
    let selections = vec![TaskAttribute::Priority, TaskAttribute::Due];
    assert!(attribute_selected(&selections, TaskAttribute::Due));
    assert!(!attribute_selected(&selections, TaskAttribute::Labels));
    assert!(!attribute_selected(&Vec::new(), TaskAttribute::Priority));
}

#[test]
fn sort_order_names() {
    assert_eq!(SortOrder::Datetime.name(), "datetime");
    assert_eq!(SortOrder::Value.name(), "value");
}

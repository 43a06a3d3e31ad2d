use tod::commands::{
    fetch_filter, fetch_priority, fetch_project, fetch_string, find_project, resolve,
    resolve_reply, FlagOptions, PromptReply, SelectorPrompt, SelectorStep,
};
use tod::lists::Flag;
use tod::projects::Project;
use tod::tasks::priority::Priority;
use tod::ErrorKind;

fn project(id: &str, name: &str) -> Project {
    Project { id: id.to_string(), name: name.to_string() }
}

#[test]
fn both_flags_fail_with_selector_conflict() {
    let projects = vec![project("1", "Inbox")];
    let r = resolve(Some("Inbox".to_string()), Some("today".to_string()), &projects);
    match r {
        SelectorStep::Failed(e) => assert_eq!(e.kind, ErrorKind::SelectorConflict),
        _ => panic!("expected a selector conflict"),
    }
}

#[test]
fn no_flags_with_single_project_resolves_without_prompting() {
    let projects = vec![project("1", "Inbox")];
    let r = resolve(None, None, &projects);
    match r {
        SelectorStep::Resolved(Flag::Project(p)) => assert_eq!(p.name, "Inbox"),
        _ => panic!("expected the sole project, with no prompt"),
    }
}

#[test]
fn no_flags_with_several_projects_asks_for_a_kind() {
    let projects = vec![project("1", "Inbox"), project("2", "Work")];
    let r = resolve(None, None, &projects);
    assert!(matches!(r, SelectorStep::Ask(SelectorPrompt::ChooseKind)));
}

#[test]
fn project_flag_is_looked_up_verbatim() {
    let projects = vec![project("1", "Inbox"), project("2", "Work")];
    let r = resolve(Some("Work".to_string()), None, &projects);
    match r {
        SelectorStep::Resolved(Flag::Project(p)) => assert_eq!(p.id, "2"),
        _ => panic!("expected the named project"),
    }
}

#[test]
fn unknown_project_name_fails_with_project_not_found() {
    let projects = vec![project("1", "Inbox")];
    let r = resolve(Some("Nowhere".to_string()), None, &projects);
    match r {
        SelectorStep::Failed(e) => assert_eq!(e.kind, ErrorKind::ProjectNotFound),
        _ => panic!("expected a lookup error"),
    }
}

#[test]
fn project_flag_with_no_projects_fails_unresolvable() {
    let projects: Vec<Project> = Vec::new();
    let r = resolve(Some("Inbox".to_string()), None, &projects);
    match r {
        SelectorStep::Failed(e) => assert_eq!(e.kind, ErrorKind::SelectorUnresolvable),
        _ => panic!("expected an unresolvable selector"),
    }
}

#[test]
fn filter_flag_is_used_verbatim() {
    let projects: Vec<Project> = Vec::new();
    let r = resolve(None, Some("overdue | today".to_string()), &projects);
    match r {
        SelectorStep::Resolved(Flag::Filter(f)) => assert_eq!(f, "overdue | today"),
        _ => panic!("expected the filter"),
    }
}

#[test]
fn empty_filter_fails_unresolvable() {
    let projects: Vec<Project> = Vec::new();
    let r = resolve(None, Some(String::new()), &projects);
    match r {
        SelectorStep::Failed(e) => assert_eq!(e.kind, ErrorKind::SelectorUnresolvable),
        _ => panic!("expected an unresolvable selector"),
    }
}

#[test]
fn kind_reply_filter_asks_for_text() {
    let projects = vec![project("1", "Inbox"), project("2", "Work")];
    let r = resolve_reply(PromptReply::Kind(FlagOptions::Filter), &projects);
    assert!(matches!(r, SelectorStep::Ask(SelectorPrompt::EnterFilter)));
}

#[test]
fn kind_reply_project_asks_for_a_pick() {
    let projects = vec![project("1", "Inbox"), project("2", "Work")];
    let r = resolve_reply(PromptReply::Kind(FlagOptions::Project), &projects);
    assert!(matches!(r, SelectorStep::Ask(SelectorPrompt::PickProject)));
}

#[test]
fn index_reply_picks_the_project() {
    let projects = vec![project("1", "Inbox"), project("2", "Work")];
    let r = resolve_reply(PromptReply::ProjectIndex(1), &projects);
    match r {
        SelectorStep::Resolved(Flag::Project(p)) => assert_eq!(p.name, "Work"),
        _ => panic!("expected the picked project"),
    }
}

#[test]
fn out_of_range_index_reply_fails() {
    let projects = vec![project("1", "Inbox")];
    let r = resolve_reply(PromptReply::ProjectIndex(3), &projects);
    match r {
        SelectorStep::Failed(e) => assert_eq!(e.kind, ErrorKind::SelectorUnresolvable),
        _ => panic!("expected a failure"),
    }
}

#[test]
fn text_reply_becomes_a_filter() {
    let projects: Vec<Project> = Vec::new();
    let r = resolve_reply(PromptReply::Text("p1".to_string()), &projects);
    match r {
        SelectorStep::Resolved(Flag::Filter(f)) => assert_eq!(f, "p1"),
        _ => panic!("expected the filter"),
    }
}

#[test]
fn find_project_returns_first_match() {
    let projects = vec![project("1", "A"), project("2", "B"), project("3", "B")];
    assert_eq!(find_project(&projects, &"B".to_string()), Some(1));
    assert_eq!(find_project(&projects, &"C".to_string()), None);
}

#[test]
fn fetch_project_without_name_auto_selects_single() {
    let projects = vec![project("1", "Inbox")];
    match fetch_project(None, &projects) {
        SelectorStep::Resolved(Flag::Project(p)) => assert_eq!(p.id, "1"),
        _ => panic!("expected the sole project"),
    }
}

#[test]
fn fetch_string_prefers_the_flag() {
    let r = fetch_string(Some(&"flag".to_string()), Some("answer".to_string()));
    assert_eq!(r.unwrap(), "flag");
    let r = fetch_string(None, Some("answer".to_string()));
    assert_eq!(r.unwrap(), "answer");
    let r = fetch_string(None, None);
    assert_eq!(r.unwrap_err().kind, ErrorKind::SelectorUnresolvable);
}

#[test]
fn fetch_filter_uses_reply_when_no_flag() {
    let r = fetch_filter(None, Some("today".to_string()));
    assert_eq!(r.unwrap(), Flag::Filter("today".to_string()));
    let r = fetch_filter(None, None);
    assert_eq!(r.unwrap_err().kind, ErrorKind::SelectorUnresolvable);
}

#[test]
fn fetch_priority_maps_ordinals_and_replies() {
    assert_eq!(fetch_priority(&Some(1), None).unwrap(), Priority::Unset);
    assert_eq!(fetch_priority(&Some(4), None).unwrap(), Priority::High);
    // An invalid ordinal falls back to the pick.
    assert_eq!(fetch_priority(&Some(9), Some(2)).unwrap(), Priority::Medium);
    assert_eq!(fetch_priority(&None, Some(0)).unwrap(), Priority::Unset);
    let e = fetch_priority(&None, None).unwrap_err();
    assert_eq!(e.kind, ErrorKind::SelectorUnresolvable);
    let e = fetch_priority(&None, Some(7)).unwrap_err();
    assert_eq!(e.kind, ErrorKind::SelectorUnresolvable);
}

#[test]
fn flag_option_labels() {
    assert_eq!(FlagOptions::Project.label(), "Project");
    assert_eq!(FlagOptions::Filter.label(), "Filter");
}

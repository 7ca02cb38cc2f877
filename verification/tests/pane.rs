use std::path::PathBuf;
use terminal_panel::pane::{
    add_paths_to_terminal, handle_drop, item_awaits_task, item_runs_task, tab_bar_buttons_shown,
    terminals_for_task, terminals_to_await, zoom_tooltip, DraggedItem, DropOutcome, DroppedItem,
    ItemContent, PaneItem,
};

fn task_terminal(item_id: u64, label: &str, running: bool) -> PaneItem {
    PaneItem {
        item_id,
        content: ItemContent::TaskTerminal { full_label: label.to_string(), running },
    }
}

fn shell_terminal(item_id: u64) -> PaneItem {
    PaneItem { item_id, content: ItemContent::Terminal }
}

fn other(item_id: u64) -> PaneItem {
    PaneItem { item_id, content: ItemContent::Other }
}

fn pane() -> Vec<PaneItem> {
    vec![
        shell_terminal(10),
        task_terminal(11, "build", false),
        other(12),
        task_terminal(13, "test", true),
        task_terminal(14, "build", true),
        task_terminal(15, "build", true),
    ]
}

#[test]
fn terminals_are_matched_by_full_label() {
    assert_eq!(terminals_for_task(&pane(), "build"), vec![1, 4, 5]);
    assert_eq!(terminals_for_task(&pane(), "test"), vec![3]);
}

#[test]
fn no_terminal_for_an_unknown_label() {
    assert_eq!(terminals_for_task(&pane(), "deploy"), Vec::<usize>::new());
    assert_eq!(terminals_for_task(&pane(), ""), Vec::<usize>::new());
    assert_eq!(terminals_for_task(&pane(), "buil"), Vec::<usize>::new());
    assert_eq!(terminals_for_task(&Vec::new(), "build"), Vec::<usize>::new());
}

#[test]
fn only_running_tasks_are_waited_for() {
    assert_eq!(terminals_to_await(&pane(), "build"), vec![14, 15]);
    assert_eq!(terminals_to_await(&pane(), "test"), vec![13]);
    assert_eq!(terminals_to_await(&pane(), "deploy"), Vec::<u64>::new());
}

#[test]
fn items_are_told_apart() {
    assert!(item_runs_task(&task_terminal(1, "build", false), "build"));
    assert!(!item_runs_task(&task_terminal(1, "build", false), "Build"));
    assert!(!item_runs_task(&shell_terminal(1), "build"));
    assert!(!item_runs_task(&other(1), "build"));
    assert!(item_awaits_task(&task_terminal(1, "build", true), "build"));
    assert!(!item_awaits_task(&task_terminal(1, "build", false), "build"));
    assert!(!item_awaits_task(&task_terminal(1, "build", true), "test"));
    assert!(!item_awaits_task(&shell_terminal(1), "build"));
}

#[test]
fn dropped_paths_are_written_after_spaces() {
    let paths = vec!["\"/home/me/a.rs\"".to_string(), "\"/tmp/b c\"".to_string()];
    assert_eq!(
        add_paths_to_terminal(&pane(), Some(0), &paths),
        Some(" \"/home/me/a.rs\" \"/tmp/b c\" ".to_string())
    );
}

#[test]
fn one_dropped_path() {
    let paths = vec!["\"/x\"".to_string()];
    assert_eq!(add_paths_to_terminal(&pane(), Some(3), &paths), Some(" \"/x\" ".to_string()));
}

#[test]
fn no_dropped_path_gives_one_space() {
    assert_eq!(add_paths_to_terminal(&pane(), Some(0), &Vec::new()), Some(" ".to_string()));
}

#[test]
fn paths_go_to_a_terminal_only() {
    let paths = vec!["\"/x\"".to_string()];
    assert_eq!(add_paths_to_terminal(&pane(), Some(2), &paths), None);
    assert_eq!(add_paths_to_terminal(&pane(), None, &paths), None);
    assert_eq!(add_paths_to_terminal(&pane(), Some(6), &paths), None);
    assert_eq!(add_paths_to_terminal(&Vec::new(), Some(0), &paths), None);
}

#[test]
fn a_terminal_tab_is_left_to_the_pane() {
    assert_eq!(
        handle_drop(DroppedItem::Tab(Some(DraggedItem::Terminal))),
        DropOutcome { paths: None, handled: false }
    );
}

#[test]
fn a_project_tab_gives_its_path() {
    assert_eq!(
        handle_drop(DroppedItem::Tab(Some(DraggedItem::ProjectItem(Some(PathBuf::from("/p/a.rs")))))),
        DropOutcome { paths: Some(vec![PathBuf::from("/p/a.rs")]), handled: true }
    );
    assert_eq!(
        handle_drop(DroppedItem::Tab(Some(DraggedItem::ProjectItem(None)))),
        DropOutcome { paths: None, handled: true }
    );
    assert_eq!(
        handle_drop(DroppedItem::Tab(Some(DraggedItem::Other))),
        DropOutcome { paths: None, handled: true }
    );
    assert_eq!(handle_drop(DroppedItem::Tab(None)), DropOutcome { paths: None, handled: true });
}

#[test]
fn a_project_entry_gives_its_path() {
    assert_eq!(
        handle_drop(DroppedItem::ProjectEntry(Some(PathBuf::from("/p/dir")))),
        DropOutcome { paths: Some(vec![PathBuf::from("/p/dir")]), handled: true }
    );
    assert_eq!(
        handle_drop(DroppedItem::ProjectEntry(None)),
        DropOutcome { paths: None, handled: true }
    );
}

#[test]
fn outside_paths_are_taken_as_they_come() {
    let paths = vec![PathBuf::from("/a"), PathBuf::from("/b")];
    assert_eq!(
        handle_drop(DroppedItem::ExternalPaths(paths.clone())),
        DropOutcome { paths: Some(paths), handled: true }
    );
    assert_eq!(
        handle_drop(DroppedItem::ExternalPaths(Vec::new())),
        DropOutcome { paths: Some(Vec::new()), handled: true }
    );
    assert_eq!(handle_drop(DroppedItem::Other), DropOutcome { paths: None, handled: true });
}

#[test]
fn buttons_follow_the_focus() {
    assert!(tab_bar_buttons_shown(true, false));
    assert!(tab_bar_buttons_shown(false, true));
    assert!(tab_bar_buttons_shown(true, true));
    assert!(!tab_bar_buttons_shown(false, false));
}

#[test]
fn zoom_tooltips() {
    assert_eq!(zoom_tooltip(true), "Zoom Out");
    assert_eq!(zoom_tooltip(false), "Zoom In");
}

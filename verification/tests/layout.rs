use std::collections::HashSet;
use terminal_panel::layout::{restore_items, stored_items, RestoredItems};
use terminal_panel::pane::{ItemContent, PaneItem};

fn item(item_id: u64, content: ItemContent) -> PaneItem {
    PaneItem { item_id, content }
}

fn task(label: &str) -> ItemContent {
    ItemContent::TaskTerminal { full_label: label.to_string(), running: true }
}

#[test]
fn only_shell_terminals_are_stored() {
    let items = vec![
        item(1, ItemContent::Terminal),
        item(2, task("build")),
        item(3, ItemContent::Other),
        item(4, ItemContent::Terminal),
    ];
    assert_eq!(stored_items(&items), (vec![1, 4], HashSet::from([1, 4])));
    assert_eq!(stored_items(&Vec::new()), (Vec::new(), HashSet::new()));
}

#[test]
fn a_stored_item_is_in_the_set_once() {
    let items = vec![
        item(1, ItemContent::Terminal),
        item(1, ItemContent::Terminal),
        item(2, task("build")),
    ];
    assert_eq!(stored_items(&items), (vec![1, 1], HashSet::from([1])));
}

#[test]
fn items_that_came_back_are_kept_in_order() {
    let restored = restore_items(&vec![Some(7), None, Some(9), Some(4)], Some(9));
    assert_eq!(
        restored,
        RestoredItems { alive_item_ids: vec![7, 9, 4], active_index: Some(1) }
    );
}

#[test]
fn the_active_item_did_not_come_back() {
    let restored = restore_items(&vec![Some(7), None, Some(4)], Some(9));
    assert_eq!(restored, RestoredItems { alive_item_ids: vec![7, 4], active_index: None });
}

#[test]
fn no_item_was_active() {
    let restored = restore_items(&vec![Some(7), Some(4)], None);
    assert_eq!(restored, RestoredItems { alive_item_ids: vec![7, 4], active_index: None });
}

#[test]
fn the_last_of_equal_items_is_made_active() {
    let restored = restore_items(&vec![Some(7), Some(7), None, Some(1)], Some(7));
    assert_eq!(
        restored,
        RestoredItems { alive_item_ids: vec![7, 7, 1], active_index: Some(1) }
    );
}

#[test]
fn nothing_to_bring_back() {
    assert_eq!(
        restore_items(&Vec::new(), Some(1)),
        RestoredItems { alive_item_ids: Vec::new(), active_index: None }
    );
    assert_eq!(
        restore_items(&vec![None, None], Some(1)),
        RestoredItems { alive_item_ids: Vec::new(), active_index: None }
    );
}

//! The layout of the panel as it is stored between sessions.

use crate::pane::{ItemContent, PaneItem, PaneItemView};
use std::collections::HashSet;
use vstd::prelude::*;

verus! {

broadcast use vstd::std_specs::hash::group_hash_axioms;

/// The stored layout: the terminals to bring back, the one that was active, and the size that
/// the user gave the panel. `S` is the unit that sizes are measured in.
#[derive(Debug, Clone, PartialEq)]
pub struct SerializedTerminalPanel<S> {
    pub items: Vec<u64>,
    pub active_item_id: Option<u64>,
    pub width: Option<S>,
    pub height: Option<S>,
}

/// Whether `item` is stored: a terminal that runs a shell. A terminal bound to a task is not
/// brought back, and neither is an item that is no terminal.
pub open spec fn is_stored(item: PaneItemView) -> bool {
    item.content is Terminal
}

/// The identifiers of the stored items, in the order of the tabs.
pub open spec fn items_to_serialize(items: Seq<PaneItemView>) -> Seq<u64>
    decreases items.len(),
{
    if items.len() == 0 {
        Seq::empty()
    } else if is_stored(items.last()) {
        items_to_serialize(items.drop_last()).push(items.last().item_id)
    } else {
        items_to_serialize(items.drop_last())
    }
}

/// The identifier of the active item, if there is an active item and it is stored.
pub open spec fn active_item_to_serialize(
    items: Seq<PaneItemView>,
    active_index: Option<usize>,
) -> Option<u64> {
    match active_index {
        Some(index) => if index < items.len() && items_to_serialize(items).contains(
            items[index as int].item_id,
        ) {
            Some(items[index as int].item_id)
        } else {
            None
        },
        None => None,
    }
}

/// The identifiers of the items that came back: `restored` holds, for each stored item in
/// turn, the identifier under which it is now known, or `None` where it could not be brought
/// back.
pub open spec fn alive_items(restored: Seq<Option<u64>>) -> Seq<u64>
    decreases restored.len(),
{
    if restored.len() == 0 {
        Seq::empty()
    } else {
        match restored.last() {
            Some(item_id) => alive_items(restored.drop_last()).push(item_id),
            None => alive_items(restored.drop_last()),
        }
    }
}

/// The position, among the items that came back, of the last one that is known under
/// `active_item_id`.
pub open spec fn active_position(restored: Seq<Option<u64>>, active_item_id: Option<u64>) -> Option<
    int,
>
    decreases restored.len(),
{
    if restored.len() == 0 {
        None
    } else if restored.last() is Some && restored.last() == active_item_id {
        Some(alive_items(restored).len() - 1)
    } else {
        active_position(restored.drop_last(), active_item_id)
    }
}

/// The items that came back, and the one to make active.
#[derive(Debug, Clone, PartialEq, Eq)]
pub struct RestoredItems {
    /// The identifiers of the items that are in the pane again, in the order of the tabs.
    pub alive_item_ids: Vec<u64>,
    /// The position of the item to make active, if it came back.
    pub active_index: Option<usize>,
}

/// Picks the items that are stored: their identifiers in the order of the tabs, and the same
/// identifiers as a set.
pub fn stored_items(items: &Vec<PaneItem>) -> (stored: (Vec<u64>, HashSet<u64>))
    ensures
        stored.0@ == items_to_serialize(items.deep_view()),
        forall|item_id: u64| stored.1@.contains(item_id) <==> stored.0@.contains(item_id),
{
    let ghost all = items.deep_view();
    let mut ids: Vec<u64> = Vec::new();
    let mut id_set: HashSet<u64> = HashSet::new();
    let mut i: usize = 0;
    while i < items.len()
        invariant
            i <= items.len(),
            all == items.deep_view(),
            ids@ == items_to_serialize(all.take(i as int)),
            forall|item_id: u64| id_set@.contains(item_id) <==> ids@.contains(item_id),
        decreases items.len() - i,
    {
        assert(all.take(i + 1).drop_last() =~= all.take(i as int));
        assert(all.take(i + 1).last() == items[i as int]@);
        match &items[i].content {
            ItemContent::Terminal => {
                let ghost before = ids@;
                let item_id = items[i].item_id;
                ids.push(item_id);
                id_set.insert(item_id);
                assert forall|other: u64| id_set@.contains(other) <==> ids@.contains(
                    other,
                ) by {
                    if before.contains(other) {
                        let k = choose|k: int| 0 <= k < before.len() && before[k] == other;
                        assert(ids@[k] == other);
                    }
                    if other == item_id {
                        assert(ids@[ids@.len() - 1] == other);
                    }
                }
            },
            _ => {},
        }
        i += 1;
    }
    assert(all.take(i as int) =~= all);
    (ids, id_set)
}

/// Tells which of the stored items are in the pane again, and which of them to make active:
/// the one that was active when the layout was stored.
pub fn restore_items(restored: &Vec<Option<u64>>, active_item_id: Option<u64>) -> (items:
    RestoredItems)
    ensures
        items.alive_item_ids@ == alive_items(restored@),
        match items.active_index {
            Some(index) => Some(index as int),
            None => None,
        } == active_position(restored@, active_item_id),
{
    let mut alive_item_ids: Vec<u64> = Vec::new();
    let mut active_index: Option<usize> = None;
    let mut i: usize = 0;
    while i < restored.len()
        invariant
            i <= restored.len(),
            alive_item_ids@ == alive_items(restored@.take(i as int)),
            alive_item_ids.len() <= i,
            match active_index {
                Some(index) => Some(index as int),
                None => None,
            } == active_position(restored@.take(i as int), active_item_id),
        decreases restored.len() - i,
    {
        assert(restored@.take(i + 1).drop_last() =~= restored@.take(i as int));
        match restored[i] {
            Some(item_id) => {
                alive_item_ids.push(item_id);
                if Some(item_id) == active_item_id {
                    active_index = Some(alive_item_ids.len() - 1);
                }
            },
            None => {},
        }
        i += 1;
    }
    assert(restored@.take(i as int) =~= restored@);
    RestoredItems { alive_item_ids, active_index }
}

} // verus!

//! The items of the panel's pane, as far as the panel's decisions read them.

use crate::text::{join, joined, str_eq};
use std::path::PathBuf;
use vstd::prelude::*;
use vstd::string::StringExecFns;

verus! {

/// What an item of the pane holds.
#[derive(Debug, Clone, PartialEq, Eq)]
pub enum ItemContent {
    /// Something that is no terminal.
    Other,
    /// A terminal that runs a shell and no task.
    Terminal,
    /// A terminal bound to a task.
    TaskTerminal {
        /// The full label of the task.
        full_label: String,
        /// Whether the task's process has not yet signalled that it is done.
        running: bool,
    },
}

/// [`ItemContent`] as a mathematical value.
pub enum ItemContentView {
    Other,
    Terminal,
    TaskTerminal { full_label: Seq<char>, running: bool },
}

impl View for ItemContent {
    type V = ItemContentView;

    open spec fn view(&self) -> ItemContentView {
        match self {
            ItemContent::Other => ItemContentView::Other,
            ItemContent::Terminal => ItemContentView::Terminal,
            ItemContent::TaskTerminal { full_label, running } => ItemContentView::TaskTerminal {
                full_label: full_label@,
                running: *running,
            },
        }
    }
}

/// One item (tab) of the pane.
#[derive(Debug, Clone, PartialEq, Eq)]
pub struct PaneItem {
    /// The identifier under which the item is stored and found again.
    pub item_id: u64,
    /// What the item holds.
    pub content: ItemContent,
}

/// [`PaneItem`] as a mathematical value.
pub struct PaneItemView {
    pub item_id: u64,
    pub content: ItemContentView,
}

impl View for PaneItem {
    type V = PaneItemView;

    open spec fn view(&self) -> PaneItemView {
        PaneItemView { item_id: self.item_id, content: self.content@ }
    }
}

impl DeepView for PaneItem {
    type V = PaneItemView;

    open spec fn deep_view(&self) -> PaneItemView {
        self@
    }
}

/// Whether `item` is a terminal bound to the task with the full label `label`.
pub open spec fn runs_task(item: PaneItemView, label: Seq<char>) -> bool {
    match item.content {
        ItemContentView::TaskTerminal { full_label, .. } => full_label == label,
        _ => false,
    }
}

/// Whether `item` is a terminal whose task, labelled `label`, has not yet signalled that it
/// is done.
pub open spec fn awaits_task(item: PaneItemView, label: Seq<char>) -> bool {
    match item.content {
        ItemContentView::TaskTerminal { full_label, running } => full_label == label && running,
        _ => false,
    }
}

/// The positions of the terminals bound to the task labelled `label`, in the order of the
/// tabs.
pub open spec fn matching_terminals(items: Seq<PaneItemView>, label: Seq<char>) -> Seq<int>
    decreases items.len(),
{
    if items.len() == 0 {
        Seq::empty()
    } else if runs_task(items.last(), label) {
        matching_terminals(items.drop_last(), label).push(items.len() - 1)
    } else {
        matching_terminals(items.drop_last(), label)
    }
}

/// The identifiers of the terminals whose task, labelled `label`, has not yet signalled that
/// it is done, in the order of the tabs.
pub open spec fn awaited_terminals(items: Seq<PaneItemView>, label: Seq<char>) -> Seq<u64>
    decreases items.len(),
{
    if items.len() == 0 {
        Seq::empty()
    } else if awaits_task(items.last(), label) {
        awaited_terminals(items.drop_last(), label).push(items.last().item_id)
    } else {
        awaited_terminals(items.drop_last(), label)
    }
}

/// [`matching_terminals`] lists exactly the positions of the matching terminals, each once and
/// in rising order.
pub proof fn lemma_matching_terminals(items: Seq<PaneItemView>, label: Seq<char>)
    ensures
        forall|k: int|
            0 <= k < matching_terminals(items, label).len() ==> {
                let i = #[trigger] matching_terminals(items, label)[k];
                0 <= i < items.len() && runs_task(items[i], label)
            },
        forall|j: int, k: int|
            0 <= j < k < matching_terminals(items, label).len() ==> matching_terminals(
                items,
                label,
            )[j] < matching_terminals(items, label)[k],
        forall|i: int|
            0 <= i < items.len() && runs_task(#[trigger] items[i], label)
                ==> matching_terminals(items, label).contains(i),
    decreases items.len(),
{
    if items.len() > 0 {
        let head = items.drop_last();
        let found = matching_terminals(items, label);
        let before = matching_terminals(head, label);
        lemma_matching_terminals(head, label);
        assert forall|i: int|
            0 <= i < items.len() && runs_task(#[trigger] items[i], label) implies found.contains(
            i,
        ) by {
            if i < items.len() - 1 {
                assert(head[i] == items[i]);
                assert(before.contains(i));
                let k = choose|k: int| 0 <= k < before.len() && before[k] == i;
                assert(found[k] == i);
            } else {
                assert(found[found.len() - 1] == i);
            }
        }
    }
}

/// The terminal that a task reuses is the last matching one: no matching terminal stands
/// after it.
pub proof fn lemma_last_matching_terminal(items: Seq<PaneItemView>, label: Seq<char>)
    ensures
        matching_terminals(items, label).len() == 0 <==> forall|i: int|
            0 <= i < items.len() ==> !runs_task(#[trigger] items[i], label),
        matching_terminals(items, label).len() > 0 ==> {
            let last = matching_terminals(items, label).last();
            &&& 0 <= last < items.len()
            &&& runs_task(items[last], label)
            &&& forall|i: int| last < i < items.len() ==> !runs_task(#[trigger] items[i], label)
        },
{
    let found = matching_terminals(items, label);
    lemma_matching_terminals(items, label);
    if found.len() > 0 {
        let last = found.last();
        assert(found[found.len() - 1] == last);
        assert forall|i: int| last < i < items.len() implies !runs_task(
            #[trigger] items[i],
            label,
        ) by {
            if runs_task(items[i], label) {
                assert(found.contains(i));
                let k = choose|k: int| 0 <= k < found.len() && found[k] == i;
                assert(k <= found.len() - 1);
            }
        }
    } else {
        assert forall|i: int| 0 <= i < items.len() implies !runs_task(
            #[trigger] items[i],
            label,
        ) by {
            if runs_task(items[i], label) {
                assert(found.contains(i));
            }
        }
    }
}

/// Whether `item` is a terminal bound to the task labelled `label`.
pub fn item_runs_task(item: &PaneItem, label: &str) -> (yes: bool)
    ensures
        yes == runs_task(item@, label@),
{
    match &item.content {
        ItemContent::TaskTerminal { full_label, .. } => str_eq(full_label.as_str(), label),
        _ => false,
    }
}

/// Whether `item` is a terminal whose task, labelled `label`, is still running.
pub fn item_awaits_task(item: &PaneItem, label: &str) -> (yes: bool)
    ensures
        yes == awaits_task(item@, label@),
{
    match &item.content {
        ItemContent::TaskTerminal { full_label, running } => *running && str_eq(
            full_label.as_str(),
            label,
        ),
        _ => false,
    }
}

/// Finds the terminals bound to the task labelled `label`: their positions among `items`, in
/// the order of the tabs.
pub fn terminals_for_task(items: &Vec<PaneItem>, label: &str) -> (found: Vec<usize>)
    ensures
        found@.map_values(|i: usize| i as int) == matching_terminals(items.deep_view(), label@),
{
    let ghost all = items.deep_view();
    let mut found: Vec<usize> = Vec::new();
    let mut i: usize = 0;
    while i < items.len()
        invariant
            i <= items.len(),
            all == items.deep_view(),
            found@.map_values(|i: usize| i as int) == matching_terminals(
                all.take(i as int),
                label@,
            ),
        decreases items.len() - i,
    {
        assert(all.take(i + 1).drop_last() =~= all.take(i as int));
        assert(all.take(i + 1).last() == items[i as int]@);
        let ghost before = found@;
        if item_runs_task(&items[i], label) {
            found.push(i);
            assert(found@.map_values(|i: usize| i as int) =~= before.map_values(
                |i: usize| i as int,
            ).push(i as int));
        }
        i += 1;
    }
    assert(all.take(i as int) =~= all);
    found
}

/// Finds the terminals whose task, labelled `label`, is still running: the identifiers of
/// their items, in the order of the tabs.
pub fn terminals_to_await(items: &Vec<PaneItem>, label: &str) -> (awaited: Vec<u64>)
    ensures
        awaited@ == awaited_terminals(items.deep_view(), label@),
{
    let ghost all = items.deep_view();
    let mut awaited: Vec<u64> = Vec::new();
    let mut i: usize = 0;
    while i < items.len()
        invariant
            i <= items.len(),
            all == items.deep_view(),
            awaited@ == awaited_terminals(all.take(i as int), label@),
        decreases items.len() - i,
    {
        assert(all.take(i + 1).drop_last() =~= all.take(i as int));
        assert(all.take(i + 1).last() == items[i as int]@);
        if item_awaits_task(&items[i], label) {
            awaited.push(items[i].item_id);
        }
        i += 1;
    }
    assert(all.take(i as int) =~= all);
    awaited
}

/// Whether `item` is a terminal, with or without a task.
pub open spec fn is_terminal(item: PaneItemView) -> bool {
    !(item.content is Other)
}

/// Whether the item at `active_index` is a terminal.
pub open spec fn active_terminal(items: Seq<PaneItemView>, active_index: Option<usize>) -> bool {
    match active_index {
        Some(index) => index < items.len() && is_terminal(items[index as int]),
        None => false,
    }
}

/// The text that stands for `paths` on a command line: each path after a space, and a space
/// at the end. The paths are given as they are to be written, quoted where they need it.
pub open spec fn paths_text(paths: Seq<Seq<char>>) -> Seq<char> {
    joined(paths.map_values(|path: Seq<char>| " "@ + path), ""@) + " "@
}

/// The text to paste into the active terminal for the paths that were dropped on the pane, or
/// `None` where the active item is no terminal.
pub fn add_paths_to_terminal(
    items: &Vec<PaneItem>,
    active_index: Option<usize>,
    paths: &Vec<String>,
) -> (new_text: Option<String>)
    ensures
        new_text.deep_view() == if active_terminal(items.deep_view(), active_index) {
            Some(paths_text(paths.deep_view()))
        } else {
            None
        },
{
    let on_terminal = match active_index {
        Some(index) => index < items.len() && match &items[index].content {
            ItemContent::Other => false,
            _ => true,
        },
        None => false,
    };
    if !on_terminal {
        return None;
    }
    let ghost all = paths.deep_view();
    let ghost spaced = |path: Seq<char>| " "@ + path;
    let mut parts: Vec<String> = Vec::new();
    let mut i: usize = 0;
    while i < paths.len()
        invariant
            i <= paths.len(),
            all == paths.deep_view(),
            spaced == |path: Seq<char>| " "@ + path,
            parts.deep_view() == all.take(i as int).map_values(spaced),
        decreases paths.len() - i,
    {
        let mut part = String::from_str(" ");
        part.append(paths[i].as_str());
        let ghost before = parts.deep_view();
        parts.push(part);
        assert(parts.deep_view() =~= before.push(part@));
        assert(all.take(i + 1).map_values(spaced) =~= all.take(i as int).map_values(spaced).push(
            spaced(all[i as int]),
        ));
        i += 1;
    }
    assert(all.take(i as int) =~= all);
    proof {
        reveal_strlit("");
        assert(4 * ""@.len() * parts@.len() == 0) by (nonlinear_arith)
            requires
                ""@.len() == 0,
        ;
    }
    let mut new_text = join(&parts, "");
    new_text.append(" ");
    Some(new_text)
}

/// What a tab that is dragged holds.
#[derive(Debug, Clone, PartialEq, Eq)]
pub enum DraggedItem {
    /// A terminal.
    Terminal,
    /// An item of the project, with the path of its file where it has one on this machine.
    ProjectItem(Option<PathBuf>),
    /// Anything else.
    Other,
}

/// What is dropped on the pane.
#[derive(Debug, Clone, PartialEq, Eq)]
pub enum DroppedItem {
    /// A tab, with the item that it stands for, where that item is still there.
    Tab(Option<DraggedItem>),
    /// An entry of the project, with its path where it has one on this machine.
    ProjectEntry(Option<PathBuf>),
    /// Paths from outside the editor.
    ExternalPaths(Vec<PathBuf>),
    /// Anything else.
    Other,
}

/// What the pane does with what was dropped on it.
#[derive(Debug, Clone, PartialEq, Eq)]
pub struct DropOutcome {
    /// The paths to write into the active terminal, if any are to be written.
    pub paths: Option<Vec<PathBuf>>,
    /// Whether the drop is dealt with. Where it is not, the pane goes on to treat it as it
    /// treats every drop.
    pub handled: bool,
}

/// The paths that a drop writes into the active terminal.
pub open spec fn dropped_paths(dropped: DroppedItem) -> Option<Seq<PathBuf>> {
    match dropped {
        DroppedItem::Tab(Some(DraggedItem::ProjectItem(Some(path)))) => Some(seq![path]),
        DroppedItem::ProjectEntry(Some(path)) => Some(seq![path]),
        DroppedItem::ExternalPaths(paths) => Some(paths@),
        _ => None,
    }
}

/// Decides what a drop on the pane does: a terminal's tab is left to the pane, which moves
/// it; every other drop ends here, and where it names files, their paths go to the active
/// terminal.
pub fn handle_drop(dropped: DroppedItem) -> (outcome: DropOutcome)
    ensures
        outcome.handled == !(dropped matches DroppedItem::Tab(Some(DraggedItem::Terminal))),
        match outcome.paths {
            Some(paths) => Some(paths@),
            None => None,
        } == dropped_paths(dropped),
{
    match dropped {
        DroppedItem::Tab(Some(DraggedItem::Terminal)) => {
            DropOutcome { paths: None, handled: false }
        },
        DroppedItem::Tab(Some(DraggedItem::ProjectItem(Some(path)))) => {
            let mut paths: Vec<PathBuf> = Vec::new();
            paths.push(path);
            assert(paths@ =~= seq![path]);
            DropOutcome { paths: Some(paths), handled: true }
        },
        DroppedItem::ProjectEntry(Some(path)) => {
            let mut paths: Vec<PathBuf> = Vec::new();
            paths.push(path);
            assert(paths@ =~= seq![path]);
            DropOutcome { paths: Some(paths), handled: true }
        },
        DroppedItem::ExternalPaths(paths) => DropOutcome { paths: Some(paths), handled: true },
        _ => DropOutcome { paths: None, handled: true },
    }
}

/// Whether the tab bar shows the panel's buttons: it does while the pane or its context
/// menu has the focus.
pub fn tab_bar_buttons_shown(has_focus: bool, context_menu_focused: bool) -> (shown: bool)
    ensures
        shown == (has_focus || context_menu_focused),
{
    has_focus || context_menu_focused
}

/// The tooltip of the zoom button.
pub fn zoom_tooltip(zoomed: bool) -> (tooltip: &'static str)
    ensures
        tooltip@ == if zoomed {
            "Zoom Out"@
        } else {
            "Zoom In"@
        },
{
    if zoomed {
        "Zoom Out"
    } else {
        "Zoom In"
    }
}

} // verus!

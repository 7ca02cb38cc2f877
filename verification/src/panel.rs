//! The state of the terminal panel and the decisions taken on it.

use crate::dock::{
    dock_position, dock_setting, pane_event_action, DockPosition, IconName, PaneEvent,
    PaneEventAction, PanelEvent, TerminalDockPosition,
};
use crate::layout::{
    active_item_to_serialize, items_to_serialize, stored_items, SerializedTerminalPanel,
};
use crate::pane::{
    awaited_terminals, lemma_matching_terminals, matching_terminals, terminals_for_task,
    terminals_to_await, PaneItem, PaneItemView,
};
use crate::task::{
    in_shell, resolve_shell, resolved_shell, run_in_shell, RevealStrategy, ShellEnvironment,
    SpawnInTerminal, SpawnInTerminalView,
};
use crate::text::{decimal, to_decimal};
use std::path::PathBuf;
use vstd::prelude::*;
use vstd::string::StringExecFns;

verus! {

broadcast use vstd::std_specs::hash::group_hash_axioms;

/// Trusted: `std::path::PathBuf`, carried through and never looked into.
#[verifier::external_type_specification]
#[verifier::external_body]
pub struct ExPathBuf(PathBuf);

/// What a new terminal runs.
#[derive(Debug, PartialEq, Eq)]
pub enum TerminalKind {
    /// A shell, started in the given directory.
    Shell(Option<PathBuf>),
    /// A task.
    Task(SpawnInTerminal),
}

/// [`TerminalKind`] as a mathematical value.
pub enum TerminalKindView {
    Shell(Option<PathBuf>),
    Task(SpawnInTerminalView),
}

impl View for TerminalKind {
    type V = TerminalKindView;

    open spec fn view(&self) -> TerminalKindView {
        match self {
            TerminalKind::Shell(directory) => TerminalKindView::Shell(*directory),
            TerminalKind::Task(task) => TerminalKindView::Task(task@),
        }
    }
}

/// Why the panel does not open a terminal.
#[derive(Debug, Clone, Copy, PartialEq, Eq, Structural)]
pub enum PanelError {
    /// The project does not support terminals.
    TerminalsNotSupported,
}

impl PanelError {
    /// The error in words.
    pub fn message(&self) -> (message: String)
        ensures
            message@ == "terminal not yet supported for remote projects"@,
    {
        String::from_str("terminal not yet supported for remote projects")
    }
}

/// A terminal to create and to add to the pane.
#[derive(Debug, PartialEq, Eq)]
pub struct AddTerminal {
    /// What the terminal runs.
    pub kind: TerminalKind,
    /// Whether the panel is brought to the front once the terminal is there.
    pub reveal_strategy: RevealStrategy,
}

/// [`AddTerminal`] as a mathematical value.
pub struct AddTerminalView {
    pub kind: TerminalKindView,
    pub reveal_strategy: RevealStrategy,
}

impl View for AddTerminal {
    type V = AddTerminalView;

    open spec fn view(&self) -> AddTerminalView {
        AddTerminalView { kind: self.kind@, reveal_strategy: self.reveal_strategy }
    }
}

/// A terminal whose process is to be replaced by a new run of its task, in the same tab.
#[derive(Debug, PartialEq, Eq)]
pub struct ReplaceTerminal {
    /// The task to run.
    pub task: SpawnInTerminal,
    /// The position of the terminal among the items of the pane.
    pub item_index: usize,
    /// The identifier of the terminal's item.
    pub item_id: u64,
}

/// [`ReplaceTerminal`] as a mathematical value.
pub struct ReplaceTerminalView {
    pub task: SpawnInTerminalView,
    pub item_index: int,
    pub item_id: u64,
}

impl View for ReplaceTerminal {
    type V = ReplaceTerminalView;

    open spec fn view(&self) -> ReplaceTerminalView {
        ReplaceTerminalView {
            task: self.task@,
            item_index: self.item_index as int,
            item_id: self.item_id,
        }
    }
}

/// What is to be done for a task that was asked to run.
#[derive(Debug, PartialEq, Eq)]
pub enum SpawnAction {
    /// Nothing: no shell could be named for the task.
    Nothing,
    /// Nothing: the task needs a new terminal and the panel opens none.
    Refused(PanelError),
    /// Create a terminal and run the task in it.
    NewTerminal(AddTerminal),
    /// Run the task in an existing terminal, in place of that terminal's process.
    ReplaceTerminal(ReplaceTerminal),
    /// Nothing yet: the run waits until the earlier runs of the task are done.
    Deferred,
}

/// [`SpawnAction`] as a mathematical value.
pub enum SpawnActionView {
    Nothing,
    Refused(PanelError),
    NewTerminal(AddTerminalView),
    ReplaceTerminal(ReplaceTerminalView),
    Deferred,
}

impl View for SpawnAction {
    type V = SpawnActionView;

    open spec fn view(&self) -> SpawnActionView {
        match self {
            SpawnAction::Nothing => SpawnActionView::Nothing,
            SpawnAction::Refused(error) => SpawnActionView::Refused(*error),
            SpawnAction::NewTerminal(add) => SpawnActionView::NewTerminal(add@),
            SpawnAction::ReplaceTerminal(replace) => SpawnActionView::ReplaceTerminal(replace@),
            SpawnAction::Deferred => SpawnActionView::Deferred,
        }
    }
}

impl DeepView for SpawnAction {
    type V = SpawnActionView;

    open spec fn deep_view(&self) -> SpawnActionView {
        self@
    }
}

/// A run that waits until the earlier runs of its task are done.
#[derive(Debug, PartialEq, Eq)]
pub struct DeferredTask {
    /// The task to run, already rewritten for its shell.
    pub task: SpawnInTerminal,
    /// The position of the terminal to reuse.
    pub item_index: usize,
    /// The identifier of the terminal to reuse.
    pub item_id: u64,
    /// The terminals whose processes are waited for.
    pub waiting_on: Vec<u64>,
}

/// [`DeferredTask`] as a mathematical value.
pub struct DeferredTaskView {
    pub task: SpawnInTerminalView,
    pub item_index: int,
    pub item_id: u64,
    pub waiting_on: Seq<u64>,
}

impl View for DeferredTask {
    type V = DeferredTaskView;

    open spec fn view(&self) -> DeferredTaskView {
        DeferredTaskView {
            task: self.task@,
            item_index: self.item_index as int,
            item_id: self.item_id,
            waiting_on: self.waiting_on@,
        }
    }
}

impl DeepView for DeferredTask {
    type V = DeferredTaskView;

    open spec fn deep_view(&self) -> DeferredTaskView {
        self@
    }
}

/// What a button of the tab bar acts on.
#[derive(Debug, Clone, Copy, PartialEq, Eq, Structural)]
pub enum FocusTarget {
    /// The active item of the pane.
    ActiveItem,
    /// The panel itself.
    Panel,
}

/// Where a new terminal goes once it is in the pane.
#[derive(Debug, Clone, Copy, PartialEq, Eq, Structural)]
pub struct TerminalPlacement {
    /// Whether the terminal takes the keyboard focus: it does where the pane had it.
    pub focus_item: bool,
    /// Whether the panel is brought to the front.
    pub focus_panel: bool,
}

/// What follows once a terminal has taken a new run of its task.
#[derive(Debug, Clone, Copy, PartialEq, Eq, Structural)]
pub struct Replaced {
    /// The item to make active, with the panel brought to the front; `None` where the task
    /// is never revealed.
    pub reveal_item: Option<usize>,
}

/// The state of the panel as a mathematical value.
pub struct TerminalPanelView<S> {
    /// The width that the user gave the panel, while it is docked at a side.
    pub width: Option<S>,
    /// The height that the user gave the panel, while it is docked at the bottom.
    pub height: Option<S>,
    /// The terminals that were asked for and are not yet in the pane.
    pub pending_terminals_to_add: nat,
    /// The runs that wait, oldest first.
    pub deferred_tasks: Seq<DeferredTaskView>,
    /// Whether the project supports terminals.
    pub enabled: bool,
    /// Whether the inline assistant is offered in the tab bar.
    pub assistant_enabled: bool,
    /// The button for the inline assistant in the tab bar, by what it acts on.
    pub assistant_tab_bar_button: Option<FocusTarget>,
}

/// The waiting runs other than the one of the task `id`.
pub open spec fn deferred_without(deferred: Seq<DeferredTaskView>, id: Seq<char>) -> Seq<
    DeferredTaskView,
>
    decreases deferred.len(),
{
    if deferred.len() == 0 {
        Seq::empty()
    } else if deferred.last().task.id == id {
        deferred_without(deferred.drop_last(), id)
    } else {
        deferred_without(deferred.drop_last(), id).push(deferred.last())
    }
}

/// The waiting run of the task `id`, if there is one.
pub open spec fn deferred_for(deferred: Seq<DeferredTaskView>, id: Seq<char>) -> Option<
    DeferredTaskView,
>
    decreases deferred.len(),
{
    if deferred.len() == 0 {
        None
    } else if deferred.last().task.id == id {
        Some(deferred.last())
    } else {
        deferred_for(deferred.drop_last(), id)
    }
}

/// No two waiting runs belong to one task, and each waits for some terminal.
pub open spec fn deferred_wf(deferred: Seq<DeferredTaskView>) -> bool {
    &&& forall|i: int, j: int|
        0 <= i < j < deferred.len() ==> (#[trigger] deferred[i]).task.id != (
        #[trigger] deferred[j]).task.id
    &&& forall|i: int| 0 <= i < deferred.len() ==> (#[trigger] deferred[i]).waiting_on.len() > 0
}

/// The panel after a terminal was asked for, with the request; or the panel unchanged, where
/// it opens no terminals.
pub open spec fn add_terminal_step<S>(
    panel: TerminalPanelView<S>,
    kind: TerminalKindView,
    reveal_strategy: RevealStrategy,
) -> (TerminalPanelView<S>, Result<AddTerminalView, PanelError>) {
    if !panel.enabled {
        (panel, Err(PanelError::TerminalsNotSupported))
    } else {
        (
            TerminalPanelView {
                pending_terminals_to_add: panel.pending_terminals_to_add + 1,
                ..panel
            },
            Ok(AddTerminalView { kind, reveal_strategy }),
        )
    }
}

/// Starts `task` in a terminal of its own.
pub open spec fn start_in_new_terminal<S>(
    panel: TerminalPanelView<S>,
    task: SpawnInTerminalView,
) -> (TerminalPanelView<S>, SpawnActionView) {
    let (next, request) = add_terminal_step(panel, TerminalKindView::Task(task), task.reveal);
    match request {
        Ok(add) => (next, SpawnActionView::NewTerminal(add)),
        Err(error) => (next, SpawnActionView::Refused(error)),
    }
}

/// Starts a run once nothing holds it back: in a terminal of its own if the task asks for one,
/// else in the terminal that was picked for it.
pub open spec fn start_deferred<S>(panel: TerminalPanelView<S>, run: DeferredTaskView) -> (
    TerminalPanelView<S>,
    SpawnActionView,
) {
    if run.task.use_new_terminal {
        start_in_new_terminal(panel, run.task)
    } else {
        (
            panel,
            SpawnActionView::ReplaceTerminal(
                ReplaceTerminalView {
                    task: run.task,
                    item_index: run.item_index,
                    item_id: run.item_id,
                },
            ),
        )
    }
}

/// Where a task runs, given the items of the pane: the task is already rewritten for its
/// shell.
pub open spec fn place_task<S>(
    panel: TerminalPanelView<S>,
    task: SpawnInTerminalView,
    items: Seq<PaneItemView>,
) -> (TerminalPanelView<S>, SpawnActionView) {
    let matching = matching_terminals(items, task.full_label);
    if task.allow_concurrent_runs && task.use_new_terminal {
        start_in_new_terminal(panel, task)
    } else if matching.len() == 0 {
        start_in_new_terminal(panel, task)
    } else {
        let run = DeferredTaskView {
            task,
            item_index: matching.last(),
            item_id: items[matching.last()].item_id,
            waiting_on: awaited_terminals(items, task.full_label),
        };
        if task.allow_concurrent_runs {
            start_deferred(panel, run)
        } else {
            let cleared = TerminalPanelView {
                deferred_tasks: deferred_without(panel.deferred_tasks, task.id),
                ..panel
            };
            if run.waiting_on.len() == 0 {
                start_deferred(cleared, run)
            } else {
                (
                    TerminalPanelView {
                        deferred_tasks: cleared.deferred_tasks.push(run),
                        ..cleared
                    },
                    SpawnActionView::Deferred,
                )
            }
        }
    }
}

/// What a request to run `request` does to the panel, and what is to be done for it.
pub open spec fn spawn_task_step<S>(
    panel: TerminalPanelView<S>,
    request: SpawnInTerminalView,
    environment: ShellEnvironment,
    items: Seq<PaneItemView>,
) -> (TerminalPanelView<S>, SpawnActionView) {
    match resolved_shell(
        request.shell,
        environment.platform,
        environment.project_is_local,
        environment.shell_variable.deep_view(),
    ) {
        None => (panel, SpawnActionView::Nothing),
        Some((shell, shell_args)) => place_task(
            panel,
            in_shell(request, environment.platform, shell, shell_args),
            items,
        ),
    }
}

/// The terminals that are waited for, less the terminal `item_id`.
pub open spec fn without_terminal(waiting_on: Seq<u64>, item_id: u64) -> Seq<u64>
    decreases waiting_on.len(),
{
    if waiting_on.len() == 0 {
        Seq::empty()
    } else if waiting_on.last() == item_id {
        without_terminal(waiting_on.drop_last(), item_id)
    } else {
        without_terminal(waiting_on.drop_last(), item_id).push(waiting_on.last())
    }
}

/// What the end of the process in the terminal `item_id` does to the runs `waiting`, oldest
/// first: a run that waited for this terminal alone starts, and any other run goes on waiting
/// for the terminals that are left to it. `panel` gives the rest of the state.
pub open spec fn settle<S>(
    panel: TerminalPanelView<S>,
    waiting: Seq<DeferredTaskView>,
    item_id: u64,
) -> (TerminalPanelView<S>, Seq<SpawnActionView>)
    decreases waiting.len(),
{
    if waiting.len() == 0 {
        (TerminalPanelView { deferred_tasks: Seq::empty(), ..panel }, Seq::empty())
    } else {
        let (before, actions) = settle(panel, waiting.drop_last(), item_id);
        let run = waiting.last();
        let left = without_terminal(run.waiting_on, item_id);
        if left.len() == 0 {
            let (next, action) = start_deferred(before, run);
            (next, actions.push(action))
        } else {
            (
                TerminalPanelView {
                    deferred_tasks: before.deferred_tasks.push(
                        DeferredTaskView { waiting_on: left, ..run },
                    ),
                    ..before
                },
                actions,
            )
        }
    }
}

/// What the end of the process in the terminal `item_id` does to the panel, and the runs that
/// start on it.
pub open spec fn task_completed_step<S>(panel: TerminalPanelView<S>, item_id: u64) -> (
    TerminalPanelView<S>,
    Seq<SpawnActionView>,
) {
    settle(panel, panel.deferred_tasks, item_id)
}

/// The panel as it is built from a stored layout: the sizes are taken over where there is a
/// layout and the workspace is known to the database.
pub open spec fn loaded_panel<S>(
    enabled: bool,
    serialized_panel: Option<SerializedTerminalPanel<S>>,
    has_database_id: bool,
) -> TerminalPanelView<S> {
    TerminalPanelView {
        width: match serialized_panel {
            Some(layout) if has_database_id => layout.width,
            _ => None,
        },
        height: match serialized_panel {
            Some(layout) if has_database_id => layout.height,
            _ => None,
        },
        pending_terminals_to_add: 0,
        deferred_tasks: Seq::empty(),
        enabled,
        assistant_enabled: false,
        assistant_tab_bar_button: None,
    }
}

/// The stored items to bring back: those of the layout, where there is one and the workspace
/// is known to the database.
pub open spec fn items_to_restore<S>(
    serialized_panel: Option<SerializedTerminalPanel<S>>,
    has_database_id: bool,
) -> Seq<u64> {
    match serialized_panel {
        Some(layout) if has_database_id => layout.items@,
        _ => Seq::empty(),
    }
}

/// The panel once a terminal that was asked for has arrived or has failed.
pub open spec fn terminal_added_step<S>(panel: TerminalPanelView<S>) -> TerminalPanelView<S> {
    TerminalPanelView {
        pending_terminals_to_add: if panel.pending_terminals_to_add > 0 {
            (panel.pending_terminals_to_add - 1) as nat
        } else {
            0
        },
        ..panel
    }
}

/// The size of the panel at `position`: the user's, or else the default for that side.
pub open spec fn panel_size<S>(
    panel: TerminalPanelView<S>,
    position: DockPosition,
    default_width: S,
    default_height: S,
) -> S {
    match position {
        DockPosition::Left | DockPosition::Right => match panel.width {
            Some(width) => width,
            None => default_width,
        },
        DockPosition::Bottom => match panel.height {
            Some(height) => height,
            None => default_height,
        },
    }
}

/// The panel with `size` as the user's size at `position`.
pub open spec fn with_size<S>(
    panel: TerminalPanelView<S>,
    position: DockPosition,
    size: Option<S>,
) -> TerminalPanelView<S> {
    match position {
        DockPosition::Left | DockPosition::Right => TerminalPanelView { width: size, ..panel },
        DockPosition::Bottom => TerminalPanelView { height: size, ..panel },
    }
}

/// Whether the panel has no terminal, neither in the pane nor on its way there.
pub open spec fn no_terminals<S>(panel: TerminalPanelView<S>, items_len: usize) -> bool {
    items_len == 0 && panel.pending_terminals_to_add == 0
}

/// The state of the terminal panel: what it keeps besides the pane and its items.
pub struct TerminalPanel<S> {
    width: Option<S>,
    height: Option<S>,
    pending_terminals_to_add: usize,
    deferred_tasks: Vec<DeferredTask>,
    enabled: bool,
    assistant_enabled: bool,
    assistant_tab_bar_button: Option<FocusTarget>,
}

impl<S> View for TerminalPanel<S> {
    type V = TerminalPanelView<S>;

    closed spec fn view(&self) -> TerminalPanelView<S> {
        TerminalPanelView {
            width: self.width,
            height: self.height,
            pending_terminals_to_add: self.pending_terminals_to_add as nat,
            deferred_tasks: self.deferred_tasks.deep_view(),
            enabled: self.enabled,
            assistant_enabled: self.assistant_enabled,
            assistant_tab_bar_button: self.assistant_tab_bar_button,
        }
    }
}

impl<S> TerminalPanel<S> {
    /// The invariant of the panel: see [`deferred_wf`].
    pub open spec fn wf(&self) -> bool {
        &&& deferred_wf(self@.deferred_tasks)
        &&& self@.pending_terminals_to_add <= usize::MAX
    }

    /// A panel without terminals, sizes or waiting runs.
    pub fn new(enabled: bool) -> (panel: Self)
        ensures
            panel.wf(),
            panel@ == (TerminalPanelView::<S> {
                width: None,
                height: None,
                pending_terminals_to_add: 0,
                deferred_tasks: Seq::empty(),
                enabled,
                assistant_enabled: false,
                assistant_tab_bar_button: None,
            }),
    {
        let panel = TerminalPanel {
            width: None,
            height: None,
            pending_terminals_to_add: 0,
            deferred_tasks: Vec::new(),
            enabled,
            assistant_enabled: false,
            assistant_tab_bar_button: None,
        };
        assert(panel.deferred_tasks.deep_view() =~= Seq::empty());
        panel
    }

    /// Asks for a terminal: counts it among those that are not yet in the pane, unless the
    /// project supports no terminals.
    pub fn add_terminal(&mut self, kind: TerminalKind, reveal_strategy: RevealStrategy) -> (request:
        Result<AddTerminal, PanelError>)
        requires
            old(self).wf(),
            add_terminal_step(old(self)@, kind@, reveal_strategy).0.pending_terminals_to_add
                <= usize::MAX,
        ensures
            final(self).wf(),
            final(self)@ == add_terminal_step(old(self)@, kind@, reveal_strategy).0,
            match request {
                Ok(add) => Ok(add@),
                Err(error) => Err(error),
            } == add_terminal_step(old(self)@, kind@, reveal_strategy).1,
    {
        if !self.enabled {
            return Err(PanelError::TerminalsNotSupported);
        }
        self.pending_terminals_to_add += 1;
        Ok(AddTerminal { kind, reveal_strategy })
    }

    /// Starts `spawn_task` in a terminal of its own: asks for the terminal.
    pub fn spawn_in_new_terminal(&mut self, spawn_task: SpawnInTerminal) -> (request: Result<
        AddTerminal,
        PanelError,
    >)
        requires
            old(self).wf(),
            start_in_new_terminal(old(self)@, spawn_task@).0.pending_terminals_to_add
                <= usize::MAX,
        ensures
            final(self).wf(),
            final(self)@ == start_in_new_terminal(old(self)@, spawn_task@).0,
            match request {
                Ok(add) => SpawnActionView::NewTerminal(add@),
                Err(error) => SpawnActionView::Refused(error),
            } == start_in_new_terminal(old(self)@, spawn_task@).1,
    {
        let reveal = spawn_task.reveal;
        self.add_terminal(TerminalKind::Task(spawn_task), reveal)
    }

    /// Starts `task` in a terminal of its own.
    fn start(&mut self, task: SpawnInTerminal) -> (action: SpawnAction)
        requires
            old(self).wf(),
            start_in_new_terminal(old(self)@, task@).0.pending_terminals_to_add <= usize::MAX,
        ensures
            final(self).wf(),
            (final(self)@, action@) == start_in_new_terminal(old(self)@, task@),
    {
        match self.spawn_in_new_terminal(task) {
            Ok(add) => SpawnAction::NewTerminal(add),
            Err(error) => SpawnAction::Refused(error),
        }
    }

    /// Starts a run that nothing holds back any more.
    fn release(&mut self, run: DeferredTask) -> (action: SpawnAction)
        requires
            old(self).wf(),
            start_deferred(old(self)@, run@).0.pending_terminals_to_add <= usize::MAX,
        ensures
            final(self).wf(),
            (final(self)@, action@) == start_deferred(old(self)@, run@),
    {
        if run.task.use_new_terminal {
            self.start(run.task)
        } else {
            SpawnAction::ReplaceTerminal(
                ReplaceTerminal {
                    task: run.task,
                    item_index: run.item_index,
                    item_id: run.item_id,
                },
            )
        }
    }

    /// Whether a terminal can be asked for, by [`Self::add_terminal`] or by a task: the count
    /// of the terminals on their way has room for one more, or the panel counts none because
    /// it opens none.
    pub fn can_add_terminal(&self) -> (yes: bool)
        ensures
            yes == (self@.enabled ==> self@.pending_terminals_to_add < usize::MAX),
    {
        !self.enabled || self.pending_terminals_to_add < usize::MAX
    }

    /// Whether the runs that wait can all start: the count of the terminals on their way has
    /// room for one for each of them, or the panel counts none because it opens none. Then
    /// [`Self::task_completed`] can be called for every terminal.
    pub fn can_complete_tasks(&self) -> (yes: bool)
        ensures
            yes == (self@.enabled ==> self@.pending_terminals_to_add + self@.deferred_tasks.len()
                <= usize::MAX),
            yes ==> forall|item_id: u64|
                (#[trigger] task_completed_step(self@, item_id)).0.pending_terminals_to_add
                    <= usize::MAX,
    {
        proof {
            assert forall|item_id: u64|
                (#[trigger] task_completed_step(self@, item_id)).0.pending_terminals_to_add
                    <= self@.pending_terminals_to_add + if self@.enabled {
                    self@.deferred_tasks.len()
                } else {
                    0
                } by {
                let waiting = self@.deferred_tasks;
                lemma_settle_pending(self@, waiting, waiting.len() as int, item_id);
            }
        }
        !self.enabled || self.deferred_tasks.len() <= usize::MAX - self.pending_terminals_to_add
    }

    /// Takes a request to run a task: names its shell, rewrites its command line for the
    /// shell, and decides from the items of the pane whether the task gets a terminal of its
    /// own, takes over the last terminal that is bound to it, or waits for the earlier runs.
    pub fn spawn_task(
        &mut self,
        spawn_in_terminal: &SpawnInTerminal,
        environment: ShellEnvironment,
        items: &Vec<PaneItem>,
    ) -> (action: SpawnAction)
        requires
            old(self).wf(),
            spawn_task_step(
                old(self)@,
                spawn_in_terminal@,
                environment,
                items.deep_view(),
            ).0.pending_terminals_to_add <= usize::MAX,
        ensures
            final(self).wf(),
            (final(self)@, action@) == spawn_task_step(
                old(self)@,
                spawn_in_terminal@,
                environment,
                items.deep_view(),
            ),
    {
        let platform = environment.platform;
        let resolved = resolve_shell(spawn_in_terminal.shell.clone(), environment);
        let (shell, shell_args) = match resolved {
            Some(resolved) => resolved,
            None => {
                return SpawnAction::Nothing;
            },
        };
        let task = run_in_shell(spawn_in_terminal.clone(), platform, shell, shell_args);

        if task.allow_concurrent_runs && task.use_new_terminal {
            return self.start(task);
        }
        let found = terminals_for_task(items, task.full_label.as_str());
        if found.len() == 0 {
            return self.start(task);
        }
        let item_index = found[found.len() - 1];
        proof {
            let matching = matching_terminals(items.deep_view(), task.full_label@);
            lemma_matching_terminals(items.deep_view(), task.full_label@);
            assert(found@.map_values(|i: usize| i as int)[found.len() - 1] == item_index);
            assert(matching.last() == item_index);
        }
        let run = DeferredTask {
            item_index,
            item_id: items[item_index].item_id,
            waiting_on: terminals_to_await(items, task.full_label.as_str()),
            task,
        };
        if run.task.allow_concurrent_runs {
            return self.release(run);
        }
        self.remove_deferred(run.task.id.as_str());
        if run.waiting_on.len() == 0 {
            return self.release(run);
        }
        proof {
            lemma_deferred_without(old(self)@.deferred_tasks, run.task.id@);
        }
        let ghost kept = self.deferred_tasks.deep_view();
        self.deferred_tasks.push(run);
        assert(self.deferred_tasks.deep_view() =~= kept.push(run@));
        SpawnAction::Deferred
    }

    /// Takes the signal that the process in the terminal `item_id` is done, or that the
    /// terminal is gone: starts the runs that waited for this terminal alone, oldest first.
    pub fn task_completed(&mut self, item_id: u64) -> (actions: Vec<SpawnAction>)
        requires
            old(self).wf(),
            task_completed_step(old(self)@, item_id).0.pending_terminals_to_add <= usize::MAX,
        ensures
            final(self).wf(),
            (final(self)@, actions.deep_view()) == task_completed_step(old(self)@, item_id),
    {
        let ghost panel = self@;
        let ghost before = self@.deferred_tasks;
        let mut waiting: Vec<DeferredTask> = Vec::new();
        std::mem::swap(&mut self.deferred_tasks, &mut waiting);
        let mut actions: Vec<SpawnAction> = Vec::new();
        assert(self.deferred_tasks.deep_view() =~= Seq::empty());
        assert(actions.deep_view() =~= Seq::empty());
        assert(before.take(0) =~= Seq::empty());
        for run in it: waiting.into_iter()
            invariant
                it.seq().len() == before.len(),
                forall|k: int| 0 <= k < before.len() ==> (#[trigger] it.seq()[k])@ == before[k],
                deferred_wf(before),
                self.wf(),
                settle(panel, before, item_id).0.pending_terminals_to_add <= usize::MAX,
                (self@, actions.deep_view()) == settle(
                    panel,
                    before.take(it.index() as int),
                    item_id,
                ),
        {
            let ghost done = before.take(it.index() + 1);
            assert(done.drop_last() =~= before.take(it.index() as int));
            assert(done.last() == run@);
            proof {
                lemma_settle(panel, done, item_id);
                lemma_settle_pending(panel, before, it.index() + 1, item_id);
            }
            let ghost actions_before = actions.deep_view();
            let DeferredTask { task, item_index, item_id: reused, waiting_on } = run;
            let left = remove_terminal(&waiting_on, item_id);
            if left.len() == 0 {
                let action = self.release(
                    DeferredTask { task, item_index, item_id: reused, waiting_on },
                );
                actions.push(action);
                assert(actions.deep_view() =~= actions_before.push(action@));
            } else {
                let ghost kept = self.deferred_tasks.deep_view();
                let still = DeferredTask { task, item_index, item_id: reused, waiting_on: left };
                self.deferred_tasks.push(still);
                assert(self.deferred_tasks.deep_view() =~= kept.push(still@));
            }
        }
        assert(before.take(before.len() as int) =~= before);
        actions
    }

    /// Whether the project supports terminals.
    pub fn enabled(&self) -> (enabled: bool)
        ensures
            enabled == self@.enabled,
    {
        self.enabled
    }

    /// The number of terminals that were asked for and are not yet in the pane.
    pub fn pending_terminals_to_add(&self) -> (pending: usize)
        ensures
            pending == self@.pending_terminals_to_add,
    {
        self.pending_terminals_to_add
    }

    /// The runs that wait, oldest first.
    pub fn deferred_tasks(&self) -> (deferred: &Vec<DeferredTask>)
        ensures
            deferred.deep_view() == self@.deferred_tasks,
    {
        &self.deferred_tasks
    }

    /// The button for the inline assistant in the tab bar, if it is shown.
    pub fn assistant_tab_bar_button(&self) -> (button: Option<FocusTarget>)
        ensures
            button == self@.assistant_tab_bar_button,
    {
        self.assistant_tab_bar_button
    }

    /// Whether the action that moves the focus to the panel and back is followed: it is for
    /// a workspace that has the panel, while the project supports terminals.
    pub fn can_toggle_focus(panel: Option<&Self>) -> (allowed: bool)
        ensures
            allowed == match panel {
                Some(panel) => panel@.enabled,
                None => false,
            },
    {
        match panel {
            Some(panel) => panel.enabled,
            None => false,
        }
    }

    /// Whether the inline assistant is offered in the tab bar.
    pub fn assistant_enabled(&self) -> (enabled: bool)
        ensures
            enabled == self@.assistant_enabled,
    {
        self.assistant_enabled
    }

    /// Offers the inline assistant in the tab bar, or takes the offer back. The button acts
    /// on the active item of the pane, or on the panel where the pane has none. Returns the
    /// button that the tab bar now shows.
    pub fn asssistant_enabled(&mut self, enabled: bool, has_active_item: bool) -> (button: Option<
        FocusTarget,
    >)
        ensures
            final(self)@ == (TerminalPanelView {
                assistant_enabled: enabled,
                assistant_tab_bar_button: button,
                ..old(self)@
            }),
            final(self).wf() == old(self).wf(),
            button == if !enabled {
                None
            } else if has_active_item {
                Some(FocusTarget::ActiveItem)
            } else {
                Some(FocusTarget::Panel)
            },
    {
        self.assistant_enabled = enabled;
        if enabled {
            let target = if has_active_item {
                FocusTarget::ActiveItem
            } else {
                FocusTarget::Panel
            };
            self.assistant_tab_bar_button = Some(target);
        } else {
            self.assistant_tab_bar_button = None;
        }
        self.assistant_tab_bar_button
    }

    /// Builds the panel from the layout that was stored, if any: returns the panel and the
    /// identifiers of the stored items to bring back. Without a layout, or for a workspace
    /// that the database does not know, the panel starts empty. The sizes are taken as they
    /// are given.
    pub fn load(
        enabled: bool,
        serialized_panel: Option<SerializedTerminalPanel<S>>,
        has_database_id: bool,
    ) -> (loaded: (Self, Vec<u64>))
        ensures
            loaded.0.wf(),
            loaded.0@ == loaded_panel(enabled, serialized_panel, has_database_id),
            loaded.1@ == items_to_restore(serialized_panel, has_database_id),
    {
        let mut panel = Self::new(enabled);
        match serialized_panel {
            Some(layout) => {
                if has_database_id {
                    panel.width = layout.width;
                    panel.height = layout.height;
                    (panel, layout.items)
                } else {
                    (panel, Vec::new())
                }
            },
            None => (panel, Vec::new()),
        }
    }

    /// Takes note that a terminal that was asked for is in the pane (`terminal_created`) or
    /// could not be created: it is no longer on its way. For a terminal that is there,
    /// returns where it goes. The layout is to be stored afterwards in either case.
    pub fn terminal_added(
        &mut self,
        terminal_created: bool,
        reveal_strategy: RevealStrategy,
        pane_has_focus: bool,
    ) -> (placement: Option<TerminalPlacement>)
        ensures
            final(self)@ == terminal_added_step(old(self)@),
            old(self).wf() ==> final(self).wf(),
            placement == if terminal_created {
                Some(
                    TerminalPlacement {
                        focus_item: pane_has_focus,
                        focus_panel: reveal_strategy == RevealStrategy::Always,
                    },
                )
            } else {
                None
            },
    {
        self.pending_terminals_to_add = self.pending_terminals_to_add.saturating_sub(1);
        if terminal_created {
            Some(
                TerminalPlacement {
                    focus_item: pane_has_focus,
                    focus_panel: match reveal_strategy {
                        RevealStrategy::Always => true,
                        RevealStrategy::Never => false,
                    },
                },
            )
        } else {
            None
        }
    }

    /// Tells what follows once the terminal at `terminal_item_index` was to take a new run
    /// of its task: nothing where the new process could not be created; else the terminal is
    /// made active and the panel brought to the front, unless the task is never revealed.
    pub fn replace_terminal(
        &self,
        reveal: RevealStrategy,
        terminal_item_index: usize,
        terminal_created: bool,
    ) -> (replaced: Option<Replaced>)
        ensures
            replaced == if !terminal_created {
                None
            } else if reveal == RevealStrategy::Always {
                Some(Replaced { reveal_item: Some(terminal_item_index) })
            } else {
                Some(Replaced { reveal_item: None })
            },
    {
        if !terminal_created {
            return None;
        }
        match reveal {
            RevealStrategy::Always => Some(Replaced { reveal_item: Some(terminal_item_index) }),
            RevealStrategy::Never => Some(Replaced { reveal_item: None }),
        }
    }

    /// Opens a shell in `working_directory` and reveals it.
    pub fn open_terminal(&mut self, working_directory: PathBuf) -> (request: Result<
        AddTerminal,
        PanelError,
    >)
        requires
            old(self).wf(),
            add_terminal_step(
                old(self)@,
                TerminalKindView::Shell(Some(working_directory)),
                RevealStrategy::Always,
            ).0.pending_terminals_to_add <= usize::MAX,
        ensures
            final(self).wf(),
            final(self)@ == add_terminal_step(
                old(self)@,
                TerminalKindView::Shell(Some(working_directory)),
                RevealStrategy::Always,
            ).0,
            match request {
                Ok(add) => Ok(add@),
                Err(error) => Err(error),
            } == add_terminal_step(
                old(self)@,
                TerminalKindView::Shell(Some(working_directory)),
                RevealStrategy::Always,
            ).1,
    {
        self.add_terminal(TerminalKind::Shell(Some(working_directory)), RevealStrategy::Always)
    }

    /// Opens a shell in the default working directory, or in the user's home directory where
    /// there is none, and reveals it.
    pub fn new_terminal(&mut self, default_working_directory: Option<PathBuf>) -> (request: Result<
        AddTerminal,
        PanelError,
    >)
        requires
            old(self).wf(),
            add_terminal_step(
                old(self)@,
                TerminalKindView::Shell(default_working_directory),
                RevealStrategy::Always,
            ).0.pending_terminals_to_add <= usize::MAX,
        ensures
            final(self).wf(),
            final(self)@ == add_terminal_step(
                old(self)@,
                TerminalKindView::Shell(default_working_directory),
                RevealStrategy::Always,
            ).0,
            match request {
                Ok(add) => Ok(add@),
                Err(error) => Err(error),
            } == add_terminal_step(
                old(self)@,
                TerminalKindView::Shell(default_working_directory),
                RevealStrategy::Always,
            ).1,
    {
        self.add_terminal(TerminalKind::Shell(default_working_directory), RevealStrategy::Always)
    }

    /// What the panel does on an event of its pane.
    pub fn handle_pane_event(&self, event: PaneEvent, workspace_alive: bool) -> (action:
        PaneEventAction)
        ensures
            action == pane_event_action(event, workspace_alive),
    {
        match event {
            PaneEvent::ActivateItem => PaneEventAction::Serialize,
            PaneEvent::RemovedItem => PaneEventAction::Serialize,
            PaneEvent::Remove => PaneEventAction::Emit(PanelEvent::Close),
            PaneEvent::ZoomIn => PaneEventAction::Emit(PanelEvent::ZoomIn),
            PaneEvent::ZoomOut => PaneEventAction::Emit(PanelEvent::ZoomOut),
            PaneEvent::AddItem => {
                if workspace_alive {
                    PaneEventAction::NotifyAddedItem
                } else {
                    PaneEventAction::Nothing
                }
            },
            PaneEvent::Other => PaneEventAction::Nothing,
        }
    }

    /// Whether the panel has no terminal, neither in the pane, which holds `items_len` items,
    /// nor on its way there.
    pub fn has_no_terminals(&self, items_len: usize) -> (none: bool)
        ensures
            none == no_terminals(self@, items_len),
    {
        items_len == 0 && self.pending_terminals_to_add == 0
    }

    /// The side at which the panel is docked, by the setting.
    pub fn position(&self, dock: TerminalDockPosition) -> (position: DockPosition)
        ensures
            position == dock_position(dock),
    {
        match dock {
            TerminalDockPosition::Left => DockPosition::Left,
            TerminalDockPosition::Bottom => DockPosition::Bottom,
            TerminalDockPosition::Right => DockPosition::Right,
        }
    }

    /// The panel can be docked at every side.
    pub fn position_is_valid(&self, position: DockPosition) -> (valid: bool)
        ensures
            valid,
    {
        true
    }

    /// The setting to write so that the panel is docked at `position`.
    pub fn set_position(&self, position: DockPosition) -> (dock: TerminalDockPosition)
        ensures
            dock == dock_setting(position),
            dock_position(dock) == position,
    {
        match position {
            DockPosition::Left => TerminalDockPosition::Left,
            DockPosition::Bottom => TerminalDockPosition::Bottom,
            DockPosition::Right => TerminalDockPosition::Right,
        }
    }

    /// Sets the size of the panel along the side at which it is docked, or takes the user's
    /// size back with `None`. The layout is to be stored afterwards.
    pub fn set_size(&mut self, position: DockPosition, size: Option<S>)
        ensures
            final(self)@ == with_size(old(self)@, position, size),
            final(self).wf() == old(self).wf(),
    {
        match position {
            DockPosition::Left | DockPosition::Right => {
                self.width = size;
            },
            DockPosition::Bottom => {
                self.height = size;
            },
        }
    }

    /// Whether the panel, becoming active or inactive, opens a shell of its own accord: it
    /// does when it becomes active without a terminal. The shell is then asked for with
    /// [`Self::add_terminal`] and is never revealed.
    pub fn set_active(&self, active: bool, items_len: usize) -> (open_shell: bool)
        ensures
            open_shell == (active && no_terminals(self@, items_len)),
    {
        active && self.has_no_terminals(items_len)
    }

    /// The badge on the panel's icon: the number of items in the pane, or none for an empty
    /// pane.
    pub fn icon_label(&self, items_len: usize) -> (label: Option<String>)
        ensures
            label.deep_view() == if items_len == 0 {
                None
            } else {
                Some(decimal(items_len as nat))
            },
    {
        if items_len == 0 {
            None
        } else {
            Some(to_decimal(items_len))
        }
    }

    /// The panel's icon in the dock: shown where the settings ask for the button, and the
    /// project supports terminals or the panel has one all the same.
    pub fn icon(&self, items_len: usize, button: bool) -> (icon: Option<IconName>)
        ensures
            icon == if (self@.enabled || !no_terminals(self@, items_len)) && button {
                Some(IconName::Terminal)
            } else {
                None
            },
    {
        if (self.enabled || !self.has_no_terminals(items_len)) && button {
            Some(IconName::Terminal)
        } else {
            None
        }
    }

    /// The name under which the panel is stored.
    pub fn persistent_name() -> (name: &'static str)
        ensures
            name@ == "TerminalPanel"@,
    {
        "TerminalPanel"
    }

    /// The tooltip of the panel's icon.
    pub fn icon_tooltip(&self) -> (tooltip: Option<&'static str>)
        ensures
            tooltip matches Some(text) && text@ == "Terminal Panel"@,
    {
        Some("Terminal Panel")
    }

    /// Forgets the waiting run of the task `id`, if there is one.
    fn remove_deferred(&mut self, id: &str)
        requires
            old(self).wf(),
        ensures
            final(self).wf(),
            final(self)@ == (TerminalPanelView {
                deferred_tasks: deferred_without(old(self)@.deferred_tasks, id@),
                ..old(self)@
            }),
    {
        let ghost before = self@.deferred_tasks;
        let mut waiting: Vec<DeferredTask> = Vec::new();
        std::mem::swap(&mut self.deferred_tasks, &mut waiting);
        let mut kept: Vec<DeferredTask> = Vec::new();
        assert(kept.deep_view() =~= deferred_without(before.take(0), id@));
        for run in it: waiting.into_iter()
            invariant
                it.seq().len() == before.len(),
                forall|k: int| 0 <= k < before.len() ==> (#[trigger] it.seq()[k])@ == before[k],
                kept.deep_view() == deferred_without(before.take(it.index() as int), id@),
        {
            assert(before.take(it.index() + 1).drop_last() =~= before.take(it.index() as int));
            assert(before.take(it.index() + 1).last() == run@);
            if !crate::text::str_eq(run.task.id.as_str(), id) {
                let ghost kept_before = kept.deep_view();
                kept.push(run);
                assert(kept.deep_view() =~= kept_before.push(run@));
            }
        }
        assert(before.take(before.len() as int) =~= before);
        proof {
            lemma_deferred_without(before, id@);
        }
        self.deferred_tasks = kept;
    }
}

/// The invariant of the waiting runs holds of all but the last of them too.
proof fn lemma_deferred_wf_head(deferred: Seq<DeferredTaskView>)
    requires
        deferred_wf(deferred),
        deferred.len() > 0,
    ensures
        deferred_wf(deferred.drop_last()),
{
    let head = deferred.drop_last();
    assert forall|i: int, j: int| 0 <= i < j < head.len() implies (#[trigger] head[i]).task.id != (
    #[trigger] head[j]).task.id by {
        assert(head[i] == deferred[i] && head[j] == deferred[j]);
    }
    assert forall|i: int| 0 <= i < head.len() implies (#[trigger] head[i]).waiting_on.len() > 0 by {
        assert(head[i] == deferred[i]);
    }
}

/// Taking the run of one task away leaves the other runs as they were, and in their order.
pub proof fn lemma_deferred_without(deferred: Seq<DeferredTaskView>, id: Seq<char>)
    requires
        deferred_wf(deferred),
    ensures
        deferred_wf(deferred_without(deferred, id)),
        deferred_for(deferred_without(deferred, id), id) is None,
        forall|k: int|
            0 <= k < deferred_without(deferred, id).len() ==> deferred.contains(
                #[trigger] deferred_without(deferred, id)[k],
            ) && deferred_without(deferred, id)[k].task.id != id,
    decreases deferred.len(),
{
    if deferred.len() > 0 {
        let head = deferred.drop_last();
        lemma_deferred_wf_head(deferred);
        lemma_deferred_without(head, id);
        let rest = deferred_without(head, id);
        let all = deferred_without(deferred, id);
        assert forall|k: int| 0 <= k < all.len() implies deferred.contains(#[trigger] all[k])
            && all[k].task.id != id by {
            if k < rest.len() {
                assert(all[k] == rest[k]);
                assert(head.contains(rest[k]));
                let i = choose|i: int| 0 <= i < head.len() && head[i] == rest[k];
                assert(deferred[i] == rest[k]);
            } else {
                assert(all[k] == deferred[deferred.len() - 1]);
            }
        }
        if deferred.last().task.id != id {
            assert(all.drop_last() =~= rest);
            assert forall|i: int, j: int| 0 <= i < j < all.len() implies (#[trigger] all[i]).task.id
                != (#[trigger] all[j]).task.id by {
                if j == all.len() - 1 {
                    assert(head.contains(rest[i]));
                    let m = choose|m: int| 0 <= m < head.len() && head[m] == rest[i];
                    assert(deferred[m] == rest[i]);
                    assert(deferred[m].task.id != deferred[deferred.len() - 1].task.id);
                } else {
                    assert(all[i] == rest[i] && all[j] == rest[j]);
                }
            }
            assert forall|i: int| 0 <= i < all.len() implies (#[trigger] all[i]).waiting_on.len()
                > 0 by {
                if i < rest.len() {
                    assert(all[i] == rest[i]);
                } else {
                    assert(all[i] == deferred[deferred.len() - 1]);
                }
            }
        }
    }
}

/// Where no run of the task `id` waits, there is none to take away.
pub proof fn lemma_deferred_without_absent(deferred: Seq<DeferredTaskView>, id: Seq<char>)
    requires
        forall|k: int| 0 <= k < deferred.len() ==> (#[trigger] deferred[k]).task.id != id,
    ensures
        deferred_without(deferred, id) == deferred,
    decreases deferred.len(),
{
    if deferred.len() > 0 {
        let head = deferred.drop_last();
        assert forall|k: int| 0 <= k < head.len() implies (#[trigger] head[k]).task.id != id by {
            assert(head[k] == deferred[k]);
        }
        lemma_deferred_without_absent(head, id);
        assert(deferred[deferred.len() - 1].task.id != id);
        assert(head.push(deferred.last()) =~= deferred);
    } else {
        assert(deferred =~= Seq::empty());
    }
}

/// `waiting_on` without the terminal `item_id`.
fn remove_terminal(waiting_on: &Vec<u64>, item_id: u64) -> (left: Vec<u64>)
    ensures
        left@ == without_terminal(waiting_on@, item_id),
{
    let mut left: Vec<u64> = Vec::new();
    let mut i: usize = 0;
    while i < waiting_on.len()
        invariant
            i <= waiting_on.len(),
            left@ == without_terminal(waiting_on@.take(i as int), item_id),
        decreases waiting_on.len() - i,
    {
        assert(waiting_on@.take(i + 1).drop_last() =~= waiting_on@.take(i as int));
        if waiting_on[i] != item_id {
            left.push(waiting_on[i]);
        }
        i += 1;
    }
    assert(waiting_on@.take(i as int) =~= waiting_on@);
    left
}

/// Settling counts one more terminal on its way at most for each run that it is given, none
/// where the panel opens none, and never fewer than it counted for the first `k` runs alone.
pub proof fn lemma_settle_pending<S>(
    panel: TerminalPanelView<S>,
    waiting: Seq<DeferredTaskView>,
    k: int,
    item_id: u64,
)
    requires
        0 <= k <= waiting.len(),
    ensures
        panel.pending_terminals_to_add <= settle(
            panel,
            waiting.take(k),
            item_id,
        ).0.pending_terminals_to_add <= settle(panel, waiting, item_id).0.pending_terminals_to_add
            <= panel.pending_terminals_to_add + waiting.len(),
        !panel.enabled ==> settle(panel, waiting, item_id).0.pending_terminals_to_add
            == panel.pending_terminals_to_add,
        settle(panel, waiting, item_id).0.enabled == panel.enabled,
    decreases waiting.len(),
{
    if waiting.len() == 0 {
        assert(waiting.take(k) =~= waiting);
    } else {
        let head = waiting.drop_last();
        if k == waiting.len() {
            assert(waiting.take(k) =~= waiting);
            lemma_settle_pending(panel, head, head.len() as int, item_id);
        } else {
            assert(waiting.take(k) =~= head.take(k));
            lemma_settle_pending(panel, head, k, item_id);
        }
    }
}

/// Settling keeps the runs that go on waiting in their order, each under its own task.
pub proof fn lemma_settle<S>(
    panel: TerminalPanelView<S>,
    waiting: Seq<DeferredTaskView>,
    item_id: u64,
)
    requires
        deferred_wf(waiting),
    ensures
        deferred_wf(settle(panel, waiting, item_id).0.deferred_tasks),
        forall|k: int|
            0 <= k < settle(panel, waiting, item_id).0.deferred_tasks.len() ==> exists|m: int|
                0 <= m < waiting.len() && (#[trigger] waiting[m]).task.id == (#[trigger] settle(
                    panel,
                    waiting,
                    item_id,
                ).0.deferred_tasks[k]).task.id,
        settle(panel, waiting, item_id).0.deferred_tasks.len() + settle(
            panel,
            waiting,
            item_id,
        ).1.len() == waiting.len(),
    decreases waiting.len(),
{
    if waiting.len() > 0 {
        let head = waiting.drop_last();
        lemma_deferred_wf_head(waiting);
        lemma_settle(panel, head, item_id);
        let kept_before = settle(panel, head, item_id).0.deferred_tasks;
        let kept = settle(panel, waiting, item_id).0.deferred_tasks;
        let last = waiting.len() - 1;
        assert forall|k: int| 0 <= k < kept.len() implies exists|m: int|
            0 <= m < waiting.len() && (#[trigger] waiting[m]).task.id == (
            #[trigger] kept[k]).task.id by {
            if k < kept_before.len() {
                assert(kept[k] == kept_before[k]);
                let m = choose|m: int|
                    0 <= m < head.len() && (#[trigger] head[m]).task.id == kept_before[k].task.id;
                assert(waiting[m] == head[m]);
            } else {
                assert(waiting[last].task.id == kept[k].task.id);
            }
        }
        assert forall|i: int, j: int| 0 <= i < j < kept.len() implies (#[trigger] kept[i]).task.id
            != (#[trigger] kept[j]).task.id by {
            if j < kept_before.len() {
                assert(kept[i] == kept_before[i] && kept[j] == kept_before[j]);
            } else {
                assert(kept[i] == kept_before[i]);
                let m = choose|m: int|
                    0 <= m < head.len() && (#[trigger] head[m]).task.id == kept_before[i].task.id;
                assert(waiting[m] == head[m]);
                assert(waiting[m].task.id != waiting[last].task.id);
            }
        }
        assert forall|i: int| 0 <= i < kept.len() implies (#[trigger] kept[i]).waiting_on.len()
            > 0 by {
            if i < kept_before.len() {
                assert(kept[i] == kept_before[i]);
            }
        }
    }
}

impl<S: Copy> TerminalPanel<S> {
    /// The width that the user gave the panel, if any.
    pub fn width(&self) -> (width: Option<S>)
        ensures
            width == self@.width,
    {
        self.width
    }

    /// The height that the user gave the panel, if any.
    pub fn height(&self) -> (height: Option<S>)
        ensures
            height == self@.height,
    {
        self.height
    }

    /// The size of the panel along the side at which it is docked.
    pub fn size(&self, position: DockPosition, default_width: S, default_height: S) -> (size: S)
        ensures
            size == panel_size(self@, position, default_width, default_height),
    {
        match position {
            DockPosition::Left | DockPosition::Right => match self.width {
                Some(width) => width,
                None => default_width,
            },
            DockPosition::Bottom => match self.height {
                Some(height) => height,
                None => default_height,
            },
        }
    }

    /// The layout to store: the terminals of `items` that run a shell, the active item if it
    /// is one of them, and the user's sizes.
    pub fn serialize(&self, items: &Vec<PaneItem>, active_index: Option<usize>) -> (layout:
        SerializedTerminalPanel<S>)
        ensures
            layout.items@ == items_to_serialize(items.deep_view()),
            layout.active_item_id == active_item_to_serialize(items.deep_view(), active_index),
            layout.width == self@.width,
            layout.height == self@.height,
    {
        let (ids, id_set) = stored_items(items);
        let active_item_id = match active_index {
            Some(index) => {
                if index < items.len() && id_set.contains(&items[index].item_id) {
                    Some(items[index].item_id)
                } else {
                    None
                }
            },
            None => None,
        };
        SerializedTerminalPanel {
            items: ids,
            active_item_id,
            width: self.width,
            height: self.height,
        }
    }
}

} // verus!

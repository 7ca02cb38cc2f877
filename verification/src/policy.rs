//! What holds of every request to run a task, whatever the panel and the pane look like.

use crate::pane::{
    awaited_terminals, awaits_task, lemma_last_matching_terminal, matching_terminals, runs_task,
    PaneItemView,
};
use crate::panel::{
    deferred_for, deferred_wf, deferred_without, lemma_deferred_without,
    lemma_deferred_without_absent, settle, spawn_task_step, start_deferred, task_completed_step,
    without_terminal, AddTerminalView, DeferredTaskView, ReplaceTerminalView, SpawnActionView,
    TerminalKindView, TerminalPanelView,
};
use crate::task::{in_shell, resolved_shell, ShellEnvironment, SpawnInTerminalView};
use vstd::prelude::*;

verus! {

/// `request` as it runs once its shell is named.
pub open spec fn task_in_shell(
    request: SpawnInTerminalView,
    environment: ShellEnvironment,
) -> SpawnInTerminalView
    recommends
        shell_is_known(request, environment),
{
    let (shell, shell_args) = resolved_shell(
        request.shell,
        environment.platform,
        environment.project_is_local,
        environment.shell_variable.deep_view(),
    ).unwrap();
    in_shell(request, environment.platform, shell, shell_args)
}

/// Whether a shell can be named for `request`.
pub open spec fn shell_is_known(
    request: SpawnInTerminalView,
    environment: ShellEnvironment,
) -> bool {
    resolved_shell(
        request.shell,
        environment.platform,
        environment.project_is_local,
        environment.shell_variable.deep_view(),
    ) is Some
}

/// The panel with one more terminal asked for, and the request for a terminal that runs
/// `task`.
pub open spec fn one_new_terminal<S>(panel: TerminalPanelView<S>, task: SpawnInTerminalView) -> (
    TerminalPanelView<S>,
    SpawnActionView,
) {
    (
        TerminalPanelView {
            pending_terminals_to_add: panel.pending_terminals_to_add + 1,
            ..panel
        },
        SpawnActionView::NewTerminal(
            AddTerminalView { kind: TerminalKindView::Task(task), reveal_strategy: task.reveal },
        ),
    )
}

/// A request asks for one terminal at most, and for none where the panel opens none or a run
/// of the task waits or takes over a terminal.
pub proof fn lemma_one_terminal_at_most<S>(
    panel: TerminalPanelView<S>,
    request: SpawnInTerminalView,
    environment: ShellEnvironment,
    items: Seq<PaneItemView>,
)
    ensures
        ({
            let (next, action) = spawn_task_step(panel, request, environment, items);
            &&& next.pending_terminals_to_add == panel.pending_terminals_to_add + if action
                is NewTerminal {
                1nat
            } else {
                0nat
            }
            &&& action is NewTerminal ==> panel.enabled
        }),
{
}

/// A task none of whose terminals is open gets exactly one new terminal, and nothing else
/// changes: no terminal is taken over and no run is left waiting.
pub proof fn lemma_first_run_gets_new_terminal<S>(
    panel: TerminalPanelView<S>,
    request: SpawnInTerminalView,
    environment: ShellEnvironment,
    items: Seq<PaneItemView>,
)
    requires
        panel.enabled,
        shell_is_known(request, environment),
        forall|i: int| 0 <= i < items.len() ==> !runs_task(#[trigger] items[i], request.full_label),
    ensures
        spawn_task_step(panel, request, environment, items) == one_new_terminal(
            panel,
            task_in_shell(request, environment),
        ),
{
    lemma_last_matching_terminal(items, request.full_label);
}

/// A task that allows concurrent runs and asks for a new terminal gets exactly one new
/// terminal, whatever terminals are open.
pub proof fn lemma_concurrent_run_in_new_terminal<S>(
    panel: TerminalPanelView<S>,
    request: SpawnInTerminalView,
    environment: ShellEnvironment,
    items: Seq<PaneItemView>,
)
    requires
        panel.enabled,
        shell_is_known(request, environment),
        request.allow_concurrent_runs,
        request.use_new_terminal,
    ensures
        spawn_task_step(panel, request, environment, items) == one_new_terminal(
            panel,
            task_in_shell(request, environment),
        ),
{
}

/// A task that allows concurrent runs and asks for no new terminal takes over the one terminal
/// that is bound to it: the panel stays as it is, and no terminal is asked for.
pub proof fn lemma_concurrent_run_replaces_terminal<S>(
    panel: TerminalPanelView<S>,
    request: SpawnInTerminalView,
    environment: ShellEnvironment,
    items: Seq<PaneItemView>,
    existing: int,
)
    requires
        shell_is_known(request, environment),
        request.allow_concurrent_runs,
        !request.use_new_terminal,
        0 <= existing < items.len(),
        runs_task(items[existing], request.full_label),
        forall|i: int|
            0 <= i < items.len() && i != existing ==> !runs_task(
                #[trigger] items[i],
                request.full_label,
            ),
    ensures
        spawn_task_step(panel, request, environment, items) == (
            panel,
            SpawnActionView::ReplaceTerminal(
                ReplaceTerminalView {
                    task: task_in_shell(request, environment),
                    item_index: existing,
                    item_id: items[existing].item_id,
                },
            ),
        ),
{
    lemma_sole_matching_terminal(items, request.full_label, existing);
}

/// A task that allows concurrent runs and asks for no new terminal takes over the last of the
/// terminals that are bound to it, however many there are: the panel stays as it is, no
/// terminal is asked for, and the earlier terminals are not named.
pub proof fn lemma_concurrent_run_replaces_last_terminal<S>(
    panel: TerminalPanelView<S>,
    request: SpawnInTerminalView,
    environment: ShellEnvironment,
    items: Seq<PaneItemView>,
    last: int,
)
    requires
        shell_is_known(request, environment),
        request.allow_concurrent_runs,
        !request.use_new_terminal,
        0 <= last < items.len(),
        runs_task(items[last], request.full_label),
        forall|i: int|
            last < i < items.len() ==> !runs_task(#[trigger] items[i], request.full_label),
    ensures
        spawn_task_step(panel, request, environment, items) == (
            panel,
            SpawnActionView::ReplaceTerminal(
                ReplaceTerminalView {
                    task: task_in_shell(request, environment),
                    item_index: last,
                    item_id: items[last].item_id,
                },
            ),
        ),
{
    lemma_last_matching_terminal(items, request.full_label);
}

/// What is left to wait for after a signal is what was waited for and is not the terminal
/// that signalled; nothing is left exactly when every terminal waited for is that one.
pub proof fn lemma_without_terminal(waiting_on: Seq<u64>, item_id: u64)
    ensures
        forall|k: int|
            0 <= k < without_terminal(waiting_on, item_id).len() ==> waiting_on.contains(
                #[trigger] without_terminal(waiting_on, item_id)[k],
            ) && without_terminal(waiting_on, item_id)[k] != item_id,
        without_terminal(waiting_on, item_id).len() == 0 <==> forall|k: int|
            0 <= k < waiting_on.len() ==> #[trigger] waiting_on[k] == item_id,
    decreases waiting_on.len(),
{
    if waiting_on.len() > 0 {
        let head = waiting_on.drop_last();
        let left = without_terminal(waiting_on, item_id);
        let before = without_terminal(head, item_id);
        lemma_without_terminal(head, item_id);
        assert forall|k: int| 0 <= k < left.len() implies waiting_on.contains(#[trigger] left[k])
            && left[k] != item_id by {
            if k < before.len() {
                assert(left[k] == before[k]);
                let m = choose|m: int| 0 <= m < head.len() && head[m] == before[k];
                assert(waiting_on[m] == before[k]);
            } else {
                assert(waiting_on[waiting_on.len() - 1] == left[k]);
            }
        }
        if left.len() == 0 {
            assert forall|k: int| 0 <= k < waiting_on.len() implies #[trigger] waiting_on[k]
                == item_id by {
                if k < head.len() {
                    assert(head[k] == waiting_on[k]);
                }
            }
        } else {
            assert(waiting_on.contains(left[0]));
        }
    }
}

/// A run that waits starts on the signal that leaves it no terminal to wait for, after the
/// runs that waited before it, and on no signal before that one: until then it goes on
/// waiting for the terminals that are left.
pub proof fn lemma_deferred_waits_for_every_terminal<S>(
    panel: TerminalPanelView<S>,
    run: DeferredTaskView,
    signal: u64,
)
    ensures
        ({
            let next = TerminalPanelView {
                deferred_tasks: panel.deferred_tasks.push(run),
                ..panel
            };
            let (settled, started) = task_completed_step(panel, signal);
            let left = without_terminal(run.waiting_on, signal);
            &&& left.len() == 0 <==> forall|k: int|
                0 <= k < run.waiting_on.len() ==> #[trigger] run.waiting_on[k] == signal
            &&& left.len() == 0 ==> task_completed_step(next, signal) == (
                start_deferred(settled, run).0,
                started.push(start_deferred(settled, run).1),
            )
            &&& left.len() > 0 ==> task_completed_step(next, signal) == (
                TerminalPanelView {
                    deferred_tasks: settled.deferred_tasks.push(
                        DeferredTaskView { waiting_on: left, ..run },
                    ),
                    ..settled
                },
                started,
            )
        }),
{
    let next = TerminalPanelView { deferred_tasks: panel.deferred_tasks.push(run), ..panel };
    lemma_without_terminal(run.waiting_on, signal);
    assert(next.deferred_tasks.drop_last() =~= panel.deferred_tasks);
    assert(next.deferred_tasks.last() == run);
    lemma_settle_ignores_deferred(next, panel, panel.deferred_tasks, signal);
}

/// Where one terminal alone is bound to a task, it is the one that is found.
proof fn lemma_sole_matching_terminal(items: Seq<PaneItemView>, label: Seq<char>, existing: int)
    requires
        0 <= existing < items.len(),
        runs_task(items[existing], label),
        forall|i: int|
            0 <= i < items.len() && i != existing ==> !runs_task(#[trigger] items[i], label),
    ensures
        matching_terminals(items, label) == seq![existing],
        awaited_terminals(items, label) == if awaits_task(items[existing], label) {
            seq![items[existing].item_id]
        } else {
            Seq::empty()
        },
    decreases items.len(),
{
    let head = items.drop_last();
    if existing == items.len() - 1 {
        assert forall|i: int| 0 <= i < head.len() implies !runs_task(#[trigger] head[i], label) by {
            assert(head[i] == items[i]);
        }
        lemma_none_matching(head, label);
        assert(matching_terminals(items, label) =~= seq![existing]);
        if awaits_task(items[existing], label) {
            assert(awaited_terminals(items, label) =~= seq![items[existing].item_id]);
        }
    } else {
        assert(head[existing] == items[existing]);
        assert forall|i: int| 0 <= i < head.len() && i != existing implies !runs_task(
            #[trigger] head[i],
            label,
        ) by {
            assert(head[i] == items[i]);
        }
        lemma_sole_matching_terminal(head, label, existing);
        assert(!runs_task(items[items.len() - 1], label));
    }
}

/// Where no terminal is bound to a task, none is found and none is waited for.
proof fn lemma_none_matching(items: Seq<PaneItemView>, label: Seq<char>)
    requires
        forall|i: int| 0 <= i < items.len() ==> !runs_task(#[trigger] items[i], label),
    ensures
        matching_terminals(items, label) == Seq::<int>::empty(),
        awaited_terminals(items, label) == Seq::<u64>::empty(),
    decreases items.len(),
{
    if items.len() > 0 {
        let head = items.drop_last();
        assert forall|i: int| 0 <= i < head.len() implies !runs_task(#[trigger] head[i], label) by {
            assert(head[i] == items[i]);
        }
        lemma_none_matching(head, label);
        assert(!runs_task(items[items.len() - 1], label));
    }
}

/// The run of `task` that waits for the one terminal `existing`.
pub open spec fn run_waiting_for(
    task: SpawnInTerminalView,
    items: Seq<PaneItemView>,
    existing: int,
) -> DeferredTaskView {
    DeferredTaskView {
        task,
        item_index: existing,
        item_id: items[existing].item_id,
        waiting_on: seq![items[existing].item_id],
    }
}

/// Settling reads nothing of the panel's waiting runs but the ones it is given.
proof fn lemma_settle_ignores_deferred<S>(
    first: TerminalPanelView<S>,
    second: TerminalPanelView<S>,
    waiting: Seq<DeferredTaskView>,
    item_id: u64,
)
    requires
        second == (TerminalPanelView { deferred_tasks: second.deferred_tasks, ..first }),
    ensures
        settle(first, waiting, item_id) == settle(second, waiting, item_id),
    decreases waiting.len(),
{
    if waiting.len() > 0 {
        lemma_settle_ignores_deferred(first, second, waiting.drop_last(), item_id);
    }
}

/// A task that allows no concurrent runs, and whose one terminal still runs, is deferred:
/// nothing starts for it when it is asked for, nor when another terminal signals that its
/// process is done. It starts when its own terminal signals that, after the runs that
/// waited before it.
pub proof fn lemma_deferred_until_completion<S>(
    panel: TerminalPanelView<S>,
    request: SpawnInTerminalView,
    environment: ShellEnvironment,
    items: Seq<PaneItemView>,
    existing: int,
    signal: u64,
)
    requires
        deferred_wf(panel.deferred_tasks),
        shell_is_known(request, environment),
        !request.allow_concurrent_runs,
        0 <= existing < items.len(),
        awaits_task(items[existing], request.full_label),
        forall|i: int|
            0 <= i < items.len() && i != existing ==> !runs_task(
                #[trigger] items[i],
                request.full_label,
            ),
    ensures
        ({
            let run = run_waiting_for(task_in_shell(request, environment), items, existing);
            let others = TerminalPanelView {
                deferred_tasks: deferred_without(panel.deferred_tasks, request.id),
                ..panel
            };
            let (next, action) = spawn_task_step(panel, request, environment, items);
            let (settled, started) = task_completed_step(others, signal);
            &&& action == SpawnActionView::Deferred
            &&& next == (TerminalPanelView {
                deferred_tasks: others.deferred_tasks.push(run),
                ..panel
            })
            &&& signal != items[existing].item_id ==> task_completed_step(next, signal) == (
                TerminalPanelView { deferred_tasks: settled.deferred_tasks.push(run), ..settled },
                started,
            )
            &&& signal == items[existing].item_id ==> task_completed_step(next, signal) == (
                start_deferred(settled, run).0,
                started.push(start_deferred(settled, run).1),
            )
        }),
{
    let run = run_waiting_for(task_in_shell(request, environment), items, existing);
    let others = TerminalPanelView {
        deferred_tasks: deferred_without(panel.deferred_tasks, request.id),
        ..panel
    };
    let next = spawn_task_step(panel, request, environment, items).0;
    lemma_sole_matching_terminal(items, request.full_label, existing);
    assert(next.deferred_tasks == others.deferred_tasks.push(run));
    assert(next.deferred_tasks.drop_last() =~= others.deferred_tasks);
    assert(next.deferred_tasks.last() == run);
    lemma_settle_ignores_deferred(next, others, others.deferred_tasks, signal);
    let id = items[existing].item_id;
    assert(run.waiting_on.drop_last() =~= Seq::<u64>::empty());
    assert(run.waiting_on.last() == id);
    assert(without_terminal(run.waiting_on.drop_last(), signal) =~= Seq::<u64>::empty());
    if signal != id {
        assert(without_terminal(run.waiting_on, signal) =~= seq![id]);
        assert(run == DeferredTaskView { waiting_on: seq![id], ..run });
    } else {
        assert(without_terminal(run.waiting_on, signal) =~= Seq::<u64>::empty());
    }
}

/// Of two requests for one task that are both deferred, only the later one is kept: the panel
/// is as if the earlier one had never been made.
pub proof fn lemma_latest_deferred_survives<S>(
    panel: TerminalPanelView<S>,
    first: SpawnInTerminalView,
    first_environment: ShellEnvironment,
    first_items: Seq<PaneItemView>,
    second: SpawnInTerminalView,
    second_environment: ShellEnvironment,
    second_items: Seq<PaneItemView>,
)
    requires
        deferred_wf(panel.deferred_tasks),
        first.id == second.id,
        spawn_task_step(panel, first, first_environment, first_items).1
            == SpawnActionView::Deferred,
        spawn_task_step(
            spawn_task_step(panel, first, first_environment, first_items).0,
            second,
            second_environment,
            second_items,
        ).1 == SpawnActionView::Deferred,
    ensures
        ({
            let between = spawn_task_step(panel, first, first_environment, first_items).0;
            let after = spawn_task_step(between, second, second_environment, second_items).0;
            let task = task_in_shell(second, second_environment);
            &&& after == spawn_task_step(panel, second, second_environment, second_items).0
            &&& deferred_wf(after.deferred_tasks)
            &&& deferred_for(after.deferred_tasks, second.id) matches Some(run)
            &&& run.task == task
            &&& run.waiting_on == awaited_terminals(second_items, task.full_label)
        }),
{
    let id = first.id;
    let others = deferred_without(panel.deferred_tasks, id);
    let between = spawn_task_step(panel, first, first_environment, first_items).0;
    let after = spawn_task_step(between, second, second_environment, second_items).0;
    lemma_deferred_without(panel.deferred_tasks, id);
    lemma_deferred_without_absent(others, id);
    assert(between.deferred_tasks.drop_last() =~= others);
    assert(deferred_without(between.deferred_tasks, id) == others);
    let run = after.deferred_tasks.last();
    assert(after.deferred_tasks.drop_last() =~= others);
    assert forall|i: int, j: int| 0 <= i < j < after.deferred_tasks.len() implies (
    #[trigger] after.deferred_tasks[i]).task.id != (#[trigger] after.deferred_tasks[j]).task.id by {
        assert(after.deferred_tasks[i] == others[i]);
        if j < others.len() {
            assert(after.deferred_tasks[j] == others[j]);
        }
    }
    assert forall|i: int| 0 <= i < after.deferred_tasks.len() implies (
    #[trigger] after.deferred_tasks[i]).waiting_on.len() > 0 by {
        if i < others.len() {
            assert(after.deferred_tasks[i] == others[i]);
        }
    }
}

} // verus!
